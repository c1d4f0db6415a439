//! Built-in defaults, kept as NUL-padded text regions so the values can be
//! edited in the compiled binary, and the parsing that reads them.
//!
//! A region is ASCII `NAME__<value>` padded with NULs.  Reading it trims at
//! the first NUL and takes what follows the first `__`; an empty result
//! means no default.  An environment override, read outside the library, is
//! passed in and wins when present.  The ICE default is a semicolon-
//! separated list.

use vstd::prelude::*;

verus! {

/// The prefix of `s` up to (excluding) the first NUL character.
pub open spec fn trim_nul(s: Seq<char>) -> Seq<char>
    decreases s.len(),
{
    if s.len() == 0 {
        s
    } else if s[0] == '\0' {
        Seq::empty()
    } else {
        seq![s[0]] + trim_nul(s.skip(1))
    }
}

/// What follows the first `__` in `s`, if `s` has one.
pub open spec fn after_tag(s: Seq<char>) -> Option<Seq<char>>
    decreases s.len(),
{
    if s.len() < 2 {
        None
    } else if s[0] == '_' && s[1] == '_' {
        Some(s.skip(2))
    } else {
        after_tag(s.skip(1))
    }
}

/// `s` without its `NAME__` tag: what follows the first `__`, or all of `s`
/// when there is none.
pub open spec fn strip_tag(s: Seq<char>) -> Seq<char> {
    match after_tag(s) {
        Some(t) => t,
        None => s,
    }
}

/// `s` split at every occurrence of `sep`; empty runs stay as empty parts,
/// so the parts always number one more than the separators.
pub open spec fn split_on(s: Seq<char>, sep: char) -> Seq<Seq<char>>
    decreases s.len(),
{
    if s.len() == 0 {
        seq![Seq::<char>::empty()]
    } else if s[0] == sep {
        seq![Seq::<char>::empty()] + split_on(s.skip(1), sep)
    } else {
        let rest = split_on(s.skip(1), sep);
        seq![seq![s[0]] + rest[0]] + rest.skip(1)
    }
}

/// The non-empty parts of `s` split at `sep`, in order.
pub open spec fn nonempty_parts(s: Seq<char>, sep: char) -> Seq<Seq<char>> {
    split_on(s, sep).filter(|p: Seq<char>| p.len() > 0)
}

/// A split has at least one part.
pub proof fn lemma_split_on_len(s: Seq<char>, sep: char)
    ensures
        split_on(s, sep).len() >= 1,
    decreases s.len(),
{
    if s.len() == 0 {
    } else if s[0] == sep {
    } else {
        lemma_split_on_len(s.skip(1), sep);
    }
}

/// A NUL-free prefix that ends at a NUL (or at the end) is the trim.
proof fn lemma_trim_nul_prefix(s: Seq<char>, k: int)
    requires
        0 <= k <= s.len(),
        forall|i: int| 0 <= i < k ==> s[i] != '\0',
        k == s.len() || s[k] == '\0',
    ensures
        trim_nul(s) =~= s.subrange(0, k),
    decreases s.len(),
{
    if s.len() == 0 {
    } else if k == 0 {
    } else {
        lemma_trim_nul_prefix(s.skip(1), k - 1);
        assert(s.subrange(0, k) =~= seq![s[0]] + s.skip(1).subrange(0, k - 1));
    }
}

/// Scanning past a position where `__` does not start leaves the tag search
/// unchanged.
proof fn lemma_after_tag_step(s: Seq<char>, i: int)
    requires
        0 <= i,
        i + 1 < s.len(),
        !(s[i] == '_' && s[i + 1] == '_'),
    ensures
        after_tag(s.skip(i)) == after_tag(s.skip(i + 1)),
{
    assert(s.skip(i).len() >= 2);
    assert(s.skip(i)[0] == s[i]);
    assert(s.skip(i)[1] == s[i + 1]);
    assert(s.skip(i).skip(1) =~= s.skip(i + 1));
}

/// Read a padded default region: an explicit override wins; otherwise trim
/// the region at the first NUL, take what follows the first `__`, and treat
/// an empty result as no default.
pub fn bytes_to_str(env: Option<String>, data: &str) -> (r: Option<String>)
    ensures
        env matches Some(v) ==> r == Some(v),
        env is None ==> {
            &&& r is Some <==> strip_tag(trim_nul(data@)).len() != 0
            &&& (r matches Some(v) ==> v@ == strip_tag(trim_nul(data@)))
        },
{
    if let Some(v) = env {
        return Some(v);
    }
    let n = data.unicode_len();
    // Trim at the first NUL.
    let mut k: usize = 0;
    while k < n && data.get_char(k) != '\0'
        invariant
            0 <= k <= n,
            n == data@.len(),
            forall|i: int| 0 <= i < k ==> data@[i] != '\0',
        decreases n - k,
    {
        k = k + 1;
    }
    proof {
        lemma_trim_nul_prefix(data@, k as int);
    }
    let trimmed = data.substring_char(0, k);
    let ghost t = trim_nul(data@);
    let m = trimmed.unicode_len();
    // Find the first "__" in the trimmed prefix.
    let mut i: usize = 0;
    let mut found = false;
    proof {
        assert(t.skip(0) =~= t);
    }
    while m - i > 1
        invariant_except_break
            i <= m,
            m == t.len(),
            trimmed@ == t,
            !found,
            after_tag(t) == after_tag(t.skip(i as int)),
        ensures
            i <= m,
            m == t.len(),
            trimmed@ == t,
            after_tag(t) == after_tag(t.skip(i as int)),
            found ==> i + 1 < m && t[i as int] == '_' && t[i as int + 1] == '_',
            !found ==> i + 1 >= m,
        decreases m - i,
    {
        if trimmed.get_char(i) == '_' && trimmed.get_char(i + 1) == '_' {
            found = true;
            break ;
        }
        proof {
            lemma_after_tag_step(t, i as int);
        }
        i = i + 1;
    }
    let value = if found {
        proof {
            assert(t.skip(i as int).len() >= 2);
            assert(t.skip(i as int)[0] == '_' && t.skip(i as int)[1] == '_');
            assert(t.skip(i as int).skip(2) =~= t.skip(i as int + 2));
            assert(t.skip(i as int + 2) =~= t.subrange(i as int + 2, t.len() as int));
        }
        trimmed.substring_char(i + 2, m)
    } else {
        proof {
            assert(t.skip(i as int).len() < 2);
            assert(t.subrange(0, t.len() as int) =~= t);
        }
        trimmed.substring_char(0, m)
    };
    if value.unicode_len() == 0 {
        None
    } else {
        Some(value.to_owned())
    }
}

/// Split `s` at every `sep`, empty parts included.
pub fn split_char(s: &str, sep: char) -> (r: Vec<String>)
    ensures
        r@.map_values(|t: String| t@) =~~= split_on(s@, sep),
{
    let n = s.unicode_len();
    let mut done: Vec<String> = Vec::new();
    let mut start: usize = 0;
    let mut i: usize = 0;
    proof {
        assert(s@.skip(0) =~= s@);
        lemma_split_on_len(s@, sep);
        assert(done@.map_values(|t: String| t@) =~~= Seq::<Seq<char>>::empty());
        assert(s@.subrange(0, 0) + split_on(s@, sep)[0] =~= split_on(s@, sep)[0]);
        assert(Seq::<Seq<char>>::empty() + seq![split_on(s@, sep)[0]] + split_on(s@, sep).skip(1)
            =~~= split_on(s@, sep));
    }
    while i < n
        invariant
            0 <= start <= i <= n,
            n == s@.len(),
            done@.map_values(|t: String| t@) + seq![
                s@.subrange(start as int, i as int) + split_on(s@.skip(i as int), sep)[0],
            ] + split_on(s@.skip(i as int), sep).skip(1) =~~= split_on(s@, sep),
        decreases n - i,
    {
        let ghost tail = split_on(s@.skip(i as int), sep);
        let ghost tail2 = split_on(s@.skip(i as int + 1), sep);
        proof {
            lemma_split_on_len(s@.skip(i as int), sep);
            lemma_split_on_len(s@.skip(i as int + 1), sep);
            assert(s@.skip(i as int)[0] == s@[i as int]);
            assert(s@.skip(i as int).skip(1) =~= s@.skip(i as int + 1));
        }
        if s.get_char(i) == sep {
            proof {
                assert(tail =~~= seq![Seq::<char>::empty()] + tail2);
                assert(tail[0] =~= Seq::<char>::empty());
                assert(tail.skip(1) =~~= tail2);
            }
            let part = s.substring_char(start, i);
            let ghost prev = done@;
            done.push(part.to_owned());
            proof {
                assert(done@.map_values(|t: String| t@) =~~= prev.map_values(|t: String| t@).push(
                    s@.subrange(start as int, i as int),
                ));
                assert(tail2 =~~= seq![tail2[0]] + tail2.skip(1));
                assert(s@.subrange(start as int, i as int) + tail[0] =~= s@.subrange(
                    start as int,
                    i as int,
                ));
                assert(s@.subrange(i as int + 1, i as int + 1) + tail2[0] =~= tail2[0]);
                assert(prev.map_values(|t: String| t@).push(
                    s@.subrange(start as int, i as int),
                ) + seq![tail2[0]] + tail2.skip(1) =~~= prev.map_values(|t: String| t@) + seq![
                    s@.subrange(start as int, i as int) + tail[0],
                ] + tail.skip(1));
            }
            start = i + 1;
        } else {
            proof {
                assert(tail =~~= seq![seq![s@[i as int]] + tail2[0]] + tail2.skip(1));
                assert(tail[0] =~= seq![s@[i as int]] + tail2[0]);
                assert(tail.skip(1) =~~= tail2.skip(1));
                assert(s@.subrange(start as int, i as int + 1) =~= s@.subrange(
                    start as int,
                    i as int,
                ) + seq![s@[i as int]]);
                assert(s@.subrange(start as int, i as int + 1) + tail2[0] =~= s@.subrange(
                    start as int,
                    i as int,
                ) + (seq![s@[i as int]] + tail2[0]));
            }
        }
        i = i + 1;
    }
    proof {
        assert(s@.skip(n as int) =~= Seq::<char>::empty());
        assert(s@.subrange(start as int, n as int) + split_on(s@.skip(n as int), sep)[0]
            =~= s@.subrange(start as int, n as int));
    }
    let last = s.substring_char(start, n);
    let ghost prev = done@;
    done.push(last.to_owned());
    proof {
        assert(done@.map_values(|t: String| t@) =~~= prev.map_values(|t: String| t@).push(
            s@.subrange(start as int, n as int),
        ));
        assert(prev.map_values(|t: String| t@).push(s@.subrange(start as int, n as int))
            =~~= prev.map_values(|t: String| t@) + seq![
            s@.subrange(start as int, n as int) + split_on(s@.skip(n as int), sep)[0],
        ] + split_on(s@.skip(n as int), sep).skip(1));
    }
    done
}

/// The built-in signalling-server default region.
pub open spec fn signal_default_region() -> Seq<char> {
    "SIGNAL__wss://icepipe.fly.dev/signaling/\0\0\0\0\0\0\0\0\0\0\0\0\0\0\0\0\0\0\0\0\0\0\0\0\0\0\0\0\0\0\0\0\0\0\0\0\0\0\0\0\0\0\0\0\0\0\0\0\0\0\0\0\0\0\0\0\0\0\0\0\0\0\0\0\0"@
}

/// The built-in ICE-server default region.
pub open spec fn stun_default_region() -> Seq<char> {
    "STUN__stun:stun.l.google.com:19302\0\0\0\0\0\0\0\0\0\0\0\0\0\0\0\0\0\0\0\0\0\0\0\0\0\0\0\0\0\0\0\0\0\0\0\0\0\0\0\0\0\0\0\0\0\0\0\0\0\0\0\0\0\0\0\0\0\0\0\0\0\0\0\0\0\0\0\0\0\0\0\0\0\0\0\0\0\0\0\0\0\0\0\0\0\0\0\0\0\0\0\0\0\0\0\0\0\0\0\0\0\0\0\0\0\0\0\0\0\0\0\0\0\0\0\0\0\0\0\0\0\0\0\0\0\0\0\0\0\0\0\0\0\0\0\0\0\0\0\0\0\0\0\0\0\0\0\0\0\0\0\0\0\0\0\0\0\0\0\0\0\0\0\0\0\0\0\0\0\0\0\0\0\0\0\0\0\0\0\0\0\0\0"@
}

/// The signalling-server URL: the override, or the built-in default.
pub fn signalling_server(env: Option<String>) -> (r: Option<String>)
    ensures
        env matches Some(v) ==> r == Some(v),
        env is None ==> {
            &&& r is Some <==> strip_tag(trim_nul(signal_default_region())).len() != 0
            &&& (r matches Some(v) ==> v@ == strip_tag(trim_nul(signal_default_region())))
        },
{
    bytes_to_str(
        env,
        "SIGNAL__wss://icepipe.fly.dev/signaling/\0\0\0\0\0\0\0\0\0\0\0\0\0\0\0\0\0\0\0\0\0\0\0\0\0\0\0\0\0\0\0\0\0\0\0\0\0\0\0\0\0\0\0\0\0\0\0\0\0\0\0\0\0\0\0\0\0\0\0\0\0\0\0\0\0",
    )
}

/// The ICE server URLs: the non-empty semicolon-separated entries of the
/// override, or of the built-in default; none when no default is in effect.
pub fn ice_urls(env: Option<String>) -> (r: Vec<String>)
    ensures
        ({
            let effective = match env {
                Some(v) => Some(v@),
                None => {
                    if strip_tag(trim_nul(stun_default_region())).len() != 0 {
                        Some(strip_tag(trim_nul(stun_default_region())))
                    } else {
                        None
                    }
                },
            };
            match effective {
                Some(text) => r@.map_values(|t: String| t@) =~~= nonempty_parts(text, ';'),
                None => r@.len() == 0,
            }
        }),
{
    let urls = bytes_to_str(
        env,
        "STUN__stun:stun.l.google.com:19302\0\0\0\0\0\0\0\0\0\0\0\0\0\0\0\0\0\0\0\0\0\0\0\0\0\0\0\0\0\0\0\0\0\0\0\0\0\0\0\0\0\0\0\0\0\0\0\0\0\0\0\0\0\0\0\0\0\0\0\0\0\0\0\0\0\0\0\0\0\0\0\0\0\0\0\0\0\0\0\0\0\0\0\0\0\0\0\0\0\0\0\0\0\0\0\0\0\0\0\0\0\0\0\0\0\0\0\0\0\0\0\0\0\0\0\0\0\0\0\0\0\0\0\0\0\0\0\0\0\0\0\0\0\0\0\0\0\0\0\0\0\0\0\0\0\0\0\0\0\0\0\0\0\0\0\0\0\0\0\0\0\0\0\0\0\0\0\0\0\0\0\0\0\0\0\0\0\0\0\0\0\0\0",
    );
    let text = match urls {
        Some(t) => t,
        None => {
            return Vec::new();
        },
    };
    let parts = split_char(text.as_str(), ';');
    let ghost mapped = parts@.map_values(|t: String| t@);
    let mut out: Vec<String> = Vec::new();
    let mut j: usize = 0;
    proof {
        reveal_with_fuel(Seq::<Seq<char>>::filter, 2);
        assert(mapped.take(0) =~~= Seq::<Seq<char>>::empty());
    }
    while j < parts.len()
        invariant
            0 <= j <= parts@.len(),
            mapped == parts@.map_values(|t: String| t@),
            out@.map_values(|t: String| t@) =~~= mapped.take(j as int).filter(
                |p: Seq<char>| p.len() > 0,
            ),
        decreases parts@.len() - j,
    {
        proof {
            reveal_with_fuel(Seq::<Seq<char>>::filter, 2);
            assert(mapped.take(j as int + 1).drop_last() =~~= mapped.take(j as int));
            assert(mapped.take(j as int + 1).last() == mapped[j as int]);
        }
        if !parts[j].as_str().is_empty() {
            let ghost prev = out@;
            out.push(parts[j].clone());
            proof {
                assert(out@.map_values(|t: String| t@) =~~= prev.map_values(|t: String| t@).push(
                    mapped[j as int],
                ));
            }
        }
        j = j + 1;
    }
    proof {
        assert(mapped.take(parts@.len() as int) =~~= mapped);
    }
    out
}

} // verus!
