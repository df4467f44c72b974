//! Building the read-only connection URI for the cookie database.

use vstd::prelude::*;
use vstd::string::StrSliceExecFns;
use vstd::string::StringExecFns;

verus! {

/// The escaping of one path character for use inside a `file:` URI:
/// `#` and `?` are syntactically meaningful there and are percent-encoded;
/// every other character passes through unchanged.
pub open spec fn spec_escape_char(c: char) -> Seq<char> {
    if c == '#' {
        seq!['%', '2', '3']
    } else if c == '?' {
        seq!['%', '3', 'f']
    } else {
        seq![c]
    }
}

/// The escaping applied character by character over a whole path.
pub open spec fn spec_escape(s: Seq<char>) -> Seq<char>
    decreases s.len(),
{
    if s.len() == 0 {
        Seq::empty()
    } else {
        spec_escape(s.drop_last()) + spec_escape_char(s.last())
    }
}

/// The URI for a path: `file:<escaped path>?immutable=1`. The
/// `immutable=1` query parameter tells the engine the file will not
/// change, so no write-ahead or shared-memory side files are created
/// next to it.
pub open spec fn spec_uri(path: Seq<char>) -> Seq<char> {
    "file:"@ + spec_escape(path) + "?immutable=1"@
}

/// Builds the `file:` URI that opens `path` immutably. Only `#` and `?`
/// are escaped; Windows-style paths (drive letters, backslashes) are not
/// supported and get no special treatment.
pub fn make_uri(path: &str) -> (r: String)
    ensures
        r@ == spec_uri(path@),
{
    let mut r = String::from_str("file:");
    let n = path.unicode_len();
    let mut i: usize = 0;
    while i < n
        invariant
            i <= n,
            n == path@.len(),
            r@ == "file:"@ + spec_escape(path@.take(i as int)),
        decreases n - i,
    {
        let c = path.get_char(i);
        if c == '#' {
            r.append("%23");
            proof {
                reveal_strlit("%23");
            }
        } else if c == '?' {
            r.append("%3f");
            proof {
                reveal_strlit("%3f");
            }
        } else {
            r.append(path.substring_char(i, i + 1));
        }
        proof {
            let taken = path@.take(i + 1);
            assert(taken.drop_last() =~= path@.take(i as int));
            assert(taken.last() == path@[i as int]);
            assert(path@.subrange(i as int, i as int + 1) =~= seq![path@[i as int]]);
            assert(r@ =~= "file:"@ + spec_escape(taken));
        }
        i = i + 1;
    }
    r.append("?immutable=1");
    proof {
        assert(path@.take(path@.len() as int) =~= path@);
        assert(r@ =~= spec_uri(path@));
    }
    r
}

/// A path with no `#` and no `?` passes through the escaping unchanged:
/// its URI is exactly the path between the `file:` prefix and the
/// `?immutable=1` suffix.
pub proof fn lemma_escape_passthrough(s: Seq<char>)
    requires
        forall|i: int| 0 <= i < s.len() ==> s[i] != '#' && s[i] != '?',
    ensures
        spec_escape(s) == s,
    decreases s.len(),
{
    if s.len() == 0 {
        assert(spec_escape(s) =~= s);
    } else {
        lemma_escape_passthrough(s.drop_last());
        assert(spec_escape(s) =~= s.drop_last() + seq![s.last()]);
        assert(s.drop_last() + seq![s.last()] =~= s);
    }
}

} // verus!
