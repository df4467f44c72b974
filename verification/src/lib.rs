pub mod cookie;
pub mod db;
pub mod decimal;
pub mod sqlite;
pub mod uri;

pub use cookie::Cookie;
pub use cookie::CookieSameSite;
pub use cookie::render_cookies_txt;
pub use cookie::str_bool;
pub use db::read_cookies_db;
pub use db::CookieDbError;
pub use db::CookieRow;
pub use uri::make_uri;
