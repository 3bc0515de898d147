pub mod cookie;
pub mod error;
pub mod input;
pub mod status;
pub mod success;

use vstd::prelude::*;

use crate::io::cookie::Cookie;

verus! {

/// A finalized response: the transport result code mapped from the outcome,
/// the body payload to serialize, and the accumulated headers and cookies.
#[derive(Debug)]
pub struct Response<B> {
    pub code: u16,
    pub body: B,
    pub headers: Vec<(String, String)>,
    pub cookies: Vec<Cookie>,
}

/// No two entries of the header set share a key.
pub open spec fn unique_header_keys(h: Seq<(String, String)>) -> bool {
    forall|a: int, b: int|
        0 <= a < h.len() && 0 <= b < h.len() && a != b ==> (#[trigger] h[a].0@) != (#[trigger] h[b].0@)
}

/// The header set holds an entry with this key and value.
pub open spec fn has_header(h: Seq<(String, String)>, k: Seq<char>, v: Seq<char>) -> bool {
    exists|j: int| 0 <= j < h.len() && (#[trigger] h[j].0@) == k && h[j].1@ == v
}

/// Replaces the entry with this key, or adds one: keys stay unique and the
/// last write to a key wins.
pub fn upsert_header(headers: Vec<(String, String)>, name: &str, value: &str) -> (out: Vec<
    (String, String),
>)
    requires
        unique_header_keys(headers@),
    ensures
        unique_header_keys(out@),
        has_header(out@, name@, value@),
        forall|k: Seq<char>, v: Seq<char>|
            k != name@ ==> (#[trigger] has_header(out@, k, v) <==> has_header(headers@, k, v)),
{
    let key: String = name.to_owned();
    let val: String = value.to_owned();
    let mut out: Vec<(String, String)> = Vec::new();
    let mut i: usize = 0;
    while i < headers.len()
        invariant
            i <= headers@.len(),
            unique_header_keys(headers@),
            unique_header_keys(out@),
            key@ == name@,
            val@ == value@,
            forall|j: int| 0 <= j < out@.len() ==> (#[trigger] out@[j].0@) != name@,
            forall|j: int|
                0 <= j < out@.len() ==> exists|l: int|
                    0 <= l < i && (#[trigger] out@[j].0@) == headers@[l].0@ && out@[j].1@
                        == headers@[l].1@,
            forall|l: int|
                0 <= l < i && (#[trigger] headers@[l].0@) != name@ ==> has_header(
                    out@,
                    headers@[l].0@,
                    headers@[l].1@,
                ),
        decreases headers@.len() - i,
    {
        let ghost hi = headers@[i as int];
        if !(headers[i].0 == key) {
            let pair = (headers[i].0.clone(), headers[i].1.clone());
            let ghost prev = out@;
            out.push(pair);
            proof {
                let n = prev.len() as int;
                assert(out@[n].0@ == hi.0@ && out@[n].1@ == hi.1@);
                assert forall|j: int| 0 <= j < out@.len() implies exists|l: int|
                    0 <= l < i + 1 && (#[trigger] out@[j].0@) == headers@[l].0@ && out@[j].1@
                        == headers@[l].1@ by {
                    if j < n {
                        let l = choose|l: int|
                            0 <= l < i && (#[trigger] prev[j].0@) == headers@[l].0@ && prev[j].1@
                                == headers@[l].1@;
                        assert(out@[j] == prev[j]);
                        assert(0 <= l < i + 1 && out@[j].0@ == headers@[l].0@ && out@[j].1@
                            == headers@[l].1@);
                    } else {
                        assert(0 <= i < i + 1 && out@[j].0@ == headers@[i as int].0@ && out@[j].1@
                            == headers@[i as int].1@);
                    }
                }
                assert forall|j: int| 0 <= j < out@.len() implies (#[trigger] out@[j].0@)
                    != name@ by {
                    if j < n {
                        assert(out@[j] == prev[j]);
                        assert(prev[j].0@ != name@);
                    } else {
                        assert(out@[j].0@ == hi.0@);
                    }
                }
                assert forall|a: int, b: int|
                    0 <= a < out@.len() && 0 <= b < out@.len() && a != b implies (
                #[trigger] out@[a].0@) != (#[trigger] out@[b].0@) by {
                    if a < n && b < n {
                        assert(out@[a] == prev[a] && out@[b] == prev[b]);
                        assert(prev[a].0@ != prev[b].0@);
                    } else if a == n && b < n {
                        let l = choose|l: int|
                            0 <= l < i && (#[trigger] prev[b].0@) == headers@[l].0@ && prev[b].1@
                                == headers@[l].1@;
                        assert(headers@[l].0@ != headers@[i as int].0@);
                        assert(out@[b] == prev[b]);
                    } else if b == n && a < n {
                        let l = choose|l: int|
                            0 <= l < i && (#[trigger] prev[a].0@) == headers@[l].0@ && prev[a].1@
                                == headers@[l].1@;
                        assert(headers@[l].0@ != headers@[i as int].0@);
                        assert(out@[a] == prev[a]);
                    }
                }
                assert forall|l: int|
                    0 <= l < i + 1 && (#[trigger] headers@[l].0@) != name@ implies has_header(
                    out@,
                    headers@[l].0@,
                    headers@[l].1@,
                ) by {
                    if l < i {
                        let j = choose|j: int|
                            0 <= j < prev.len() && (#[trigger] prev[j].0@) == headers@[l].0@
                                && prev[j].1@ == headers@[l].1@;
                        assert(out@[j] == prev[j]);
                        assert(out@[j].0@ == headers@[l].0@ && out@[j].1@ == headers@[l].1@);
                    } else {
                        assert(out@[n].0@ == headers@[l].0@ && out@[n].1@ == headers@[l].1@);
                    }
                }
            }
        } else {
            proof {
                assert(hi.0@ == name@);
            }
        }
        i += 1;
    }
    let ghost base = out@;
    out.push((key, val));
    proof {
        let n = base.len() as int;
        assert(out@[n].0@ == name@ && out@[n].1@ == value@);
        assert(has_header(out@, name@, value@));
        assert forall|a: int, b: int|
            0 <= a < out@.len() && 0 <= b < out@.len() && a != b implies (#[trigger] out@[a].0@)
            != (#[trigger] out@[b].0@) by {
            if a < n && b < n {
                assert(out@[a] == base[a] && out@[b] == base[b]);
                assert(base[a].0@ != base[b].0@);
            } else if a == n && b < n {
                assert(out@[b] == base[b]);
                assert(base[b].0@ != name@);
            } else if b == n && a < n {
                assert(out@[a] == base[a]);
                assert(base[a].0@ != name@);
            }
        }
        assert forall|k: Seq<char>, v: Seq<char>| k != name@ implies (#[trigger] has_header(
            out@,
            k,
            v,
        ) <==> has_header(headers@, k, v)) by {
            if has_header(out@, k, v) {
                let j = choose|j: int|
                    0 <= j < out@.len() && (#[trigger] out@[j].0@) == k && out@[j].1@ == v;
                assert(j != n);
                assert(out@[j] == base[j]);
                let l = choose|l: int|
                    0 <= l < headers@.len() && (#[trigger] base[j].0@) == headers@[l].0@
                        && base[j].1@ == headers@[l].1@;
                assert(headers@[l].0@ == k && headers@[l].1@ == v);
                assert(has_header(headers@, k, v));
            }
            if has_header(headers@, k, v) {
                let l = choose|l: int|
                    0 <= l < headers@.len() && (#[trigger] headers@[l].0@) == k && headers@[l].1@
                        == v;
                assert(headers@[l].0@ != name@);
                assert(has_header(base, headers@[l].0@, headers@[l].1@));
                let j = choose|j: int|
                    0 <= j < base.len() && (#[trigger] base[j].0@) == k && base[j].1@ == v;
                assert(out@[j] == base[j]);
                assert(out@[j].0@ == k && out@[j].1@ == v);
                assert(has_header(out@, k, v));
            }
        }
    }
    out
}

} // verus!
