//! The availability prober's classification: the host runs the companion
//! command-line tool and reports how that went; every outcome is folded
//! into one of the two availability messages, never into a failure.

use vstd::prelude::*;
use crate::chars::{chars_of, push_all, push_str_chars, string_of};

verus! {

use vstd::string::StringExecFns;

/// The characters the trim removes: the Unicode `White_Space` set, as
/// `str::trim` removes it.
pub open spec fn spec_is_space(c: char) -> bool {
    ||| (0x09 <= c as u32 && c as u32 <= 0x0D)
    ||| c as u32 == 0x20
    ||| c as u32 == 0x85
    ||| c as u32 == 0xA0
    ||| c as u32 == 0x1680
    ||| (0x2000 <= c as u32 && c as u32 <= 0x200A)
    ||| c as u32 == 0x2028
    ||| c as u32 == 0x2029
    ||| c as u32 == 0x202F
    ||| c as u32 == 0x205F
    ||| c as u32 == 0x3000
}

/// `s` with its leading white space removed.
pub open spec fn spec_trim_start(s: Seq<char>) -> Seq<char>
    decreases s.len(),
{
    if s.len() > 0 && spec_is_space(s[0]) {
        spec_trim_start(s.drop_first())
    } else {
        s
    }
}

/// `s` with its trailing white space removed.
pub open spec fn spec_trim_end(s: Seq<char>) -> Seq<char>
    decreases s.len(),
{
    if s.len() > 0 && spec_is_space(s.last()) {
        spec_trim_end(s.drop_last())
    } else {
        s
    }
}

/// `s` with white space removed at both ends, as `str::trim` yields it.
pub open spec fn spec_trim(s: Seq<char>) -> Seq<char> {
    spec_trim_end(spec_trim_start(s))
}

fn is_space_char(c: char) -> (b: bool)
    ensures
        b == spec_is_space(c),
{
    let n = c as u32;
    (0x09 <= n && n <= 0x0D) || n == 0x20 || n == 0x85 || n == 0xA0 || n == 0x1680 || (0x2000 <= n
        && n <= 0x200A) || n == 0x2028 || n == 0x2029 || n == 0x202F || n == 0x205F || n == 0x3000
}

/// Removes white space from both ends of `s`.
pub fn trim_chars(s: &Vec<char>) -> (out: Vec<char>)
    ensures
        out@ == spec_trim(s@),
{
    let n = s.len();
    let mut i: usize = 0;
    proof {
        assert(s@.skip(0) =~= s@);
    }
    while i < n && is_space_char(s[i])
        invariant
            i <= n,
            n == s@.len(),
            spec_trim_start(s@) == spec_trim_start(s@.skip(i as int)),
        decreases n - i,
    {
        proof {
            assert(s@.skip(i as int)[0] == s@[i as int]);
            assert(s@.skip(i as int).drop_first() =~= s@.skip(i as int + 1));
        }
        i = i + 1;
    }
    proof {
        if i < n {
            assert(!spec_is_space(s@.skip(i as int)[0]));
        }
        assert(spec_trim_start(s@) == s@.skip(i as int));
    }
    let ghost st = s@.skip(i as int);
    let mut j: usize = n;
    proof {
        assert(st.take(n as int - i) =~= st);
    }
    while j > i && is_space_char(s[j - 1])
        invariant
            i <= j <= n,
            n == s@.len(),
            st == s@.skip(i as int),
            spec_trim_end(st) == spec_trim_end(st.take(j as int - i)),
        decreases j,
    {
        proof {
            let t = st.take(j as int - i);
            assert(t.last() == s@[j as int - 1]);
            assert(t.drop_last() =~= st.take(j as int - 1 - i));
        }
        j = j - 1;
    }
    proof {
        if j > i {
            assert(st.take(j as int - i).last() == s@[j as int - 1]);
        } else {
            assert(st.take(0) =~= st.take(0));
        }
        assert(spec_trim_end(st) == st.take(j as int - i));
    }
    let mut out: Vec<char> = Vec::new();
    let mut k: usize = i;
    while k < j
        invariant
            i <= k <= j <= n,
            n == s@.len(),
            out@ == s@.subrange(i as int, k as int),
        decreases j - k,
    {
        out.push(s[k]);
        proof {
            assert(s@.subrange(i as int, k as int + 1) =~= s@.subrange(i as int, k as int).push(
                s@[k as int],
            ));
        }
        k = k + 1;
    }
    proof {
        assert(st.take(j as int - i) =~= s@.subrange(i as int, j as int));
    }
    out
}

/// Classifies the probe of the companion command-line tool.  `probe` is
/// `None` when the tool could not be launched at all, and otherwise holds
/// whether it exited successfully together with its captured standard
/// output.  Every failure collapses to `"not_installed"`; a successful
/// exit is reported as `"installed: "` followed by the trimmed output.
pub fn check_availability(probe: Option<(bool, String)>) -> (r: String)
    ensures
        match probe {
            Some(p) => {
                if p.0 {
                    r@ == "installed: "@ + spec_trim(p.1@)
                } else {
                    r@ == "not_installed"@
                }
            },
            None => r@ == "not_installed"@,
        },
{
    match probe {
        Some((exited_ok, stdout_text)) => {
            if exited_ok {
                let mut out: Vec<char> = Vec::new();
                push_str_chars(&mut out, "installed: ");
                let raw = chars_of(stdout_text.as_str());
                let trimmed = trim_chars(&raw);
                push_all(&mut out, &trimmed);
                string_of(&out)
            } else {
                String::from_str("not_installed")
            }
        },
        None => String::from_str("not_installed"),
    }
}

} // verus!
