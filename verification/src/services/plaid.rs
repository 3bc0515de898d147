use vstd::prelude::*;

use vstd::string::{StrSliceExecFns, StringExecFns};

verus! {

/// The sequence with every double-quote character removed.
pub open spec fn without_quotes(s: Seq<char>) -> Seq<char>
    decreases s.len(),
{
    if s.len() == 0 {
        Seq::empty()
    } else if s.last() == '"' {
        without_quotes(s.drop_last())
    } else {
        without_quotes(s.drop_last()).push(s.last())
    }
}

/// Removing quotes from a sequence that holds none leaves it unchanged
/// when appended to a prefix.
proof fn lemma_without_quotes_clean_suffix(a: Seq<char>, b: Seq<char>)
    requires
        forall|j: int| 0 <= j < b.len() ==> (#[trigger] b[j]) != '"',
    ensures
        without_quotes(a + b) == without_quotes(a) + b,
    decreases b.len(),
{
    if b.len() == 0 {
        assert(a + b =~= a);
        assert(without_quotes(a) + b =~= without_quotes(a));
    } else {
        let b0 = b.drop_last();
        lemma_without_quotes_clean_suffix(a, b0);
        assert((a + b).drop_last() =~= a + b0);
        assert((a + b).last() == b.last());
        assert(without_quotes(a + b) =~= without_quotes(a) + b);
    }
}

/// Removing quotes ignores a trailing quote.
proof fn lemma_without_quotes_drop_quote(a: Seq<char>)
    requires
        a.len() > 0,
        a.last() == '"',
    ensures
        without_quotes(a) == without_quotes(a.drop_last()),
{
}

/// The client-facing link for a bank-linking token: the fixed link prefix
/// followed by the token text with every double-quote character removed
/// (the raw token may arrive as a quoted JSON string).
pub fn link_for_token(token: &str) -> (r: String)
    ensures
        r@ == "http://localhost:8000/link/"@ + without_quotes(token@),
{
    let mut r = String::from_str("http://localhost:8000/link/");
    let ghost prefix = r@;
    let n = token.unicode_len();
    let mut i: usize = 0;
    let mut start: usize = 0;
    while i < n
        invariant
            0 <= start <= i <= n,
            n == token@.len(),
            r@ == prefix + without_quotes(token@.take(start as int)),
            forall|j: int| start <= j < i ==> (#[trigger] token@[j]) != '"',
        decreases n - i,
    {
        if token.get_char(i) == '"' {
            let piece = token.substring_char(start, i);
            r.append(piece);
            proof {
                let t = token@;
                assert(t.take(start as int) + piece@ =~= t.take(i as int));
                lemma_without_quotes_clean_suffix(t.take(start as int), piece@);
                assert(t.take(i as int + 1).drop_last() =~= t.take(i as int));
                assert(t.take(i as int + 1).last() == t[i as int]);
                lemma_without_quotes_drop_quote(t.take(i as int + 1));
                assert(r@ == prefix + without_quotes(t.take(i as int + 1)));
            }
            start = i + 1;
        }
        i += 1;
    }
    let piece = token.substring_char(start, n);
    r.append(piece);
    proof {
        let t = token@;
        assert(t.take(start as int) + piece@ =~= t);
        lemma_without_quotes_clean_suffix(t.take(start as int), piece@);
    }
    r
}

} // verus!
