//! Extraction of the human-readable distribution name from os-release text:
//! the first `PRETTY_NAME=` line decides, its value loses every leading copy
//! of the key and the quotes around it.

use crate::text::find_char;
use crate::text::find_char_at;
use crate::text::lemma_find_char_at;
use crate::text::option_text_view;
use vstd::prelude::*;
use vstd::string::StrSliceExecFns;

verus! {

/// A line as the standard line iterator yields it: without one trailing
/// carriage return.
pub open spec fn strip_cr(line: Seq<char>) -> Seq<char> {
    if line.len() > 0 && line[line.len() - 1] == '\r' {
        line.drop_last()
    } else {
        line
    }
}

/// The lines of `s`, split at newlines, each without one trailing carriage
/// return; a final newline closes the last line rather than opening an
/// empty one.
pub open spec fn split_lines(s: Seq<char>) -> Seq<Seq<char>>
    decreases s.len(),
    via split_lines_decreases
{
    if s.len() == 0 {
        Seq::empty()
    } else {
        let i = find_char_at(s, '\n');
        if i == s.len() {
            seq![strip_cr(s)]
        } else {
            seq![strip_cr(s.take(i))] + split_lines(s.skip(i + 1))
        }
    }
}

#[via_fn]
proof fn split_lines_decreases(s: Seq<char>) {
    lemma_find_char_at(s, '\n');
}

/// The key that introduces the human-readable name.
pub open spec fn pretty_key() -> Seq<char> {
    seq!['P', 'R', 'E', 'T', 'T', 'Y', '_', 'N', 'A', 'M', 'E', '=']
}

/// Whether a line opens with the key.
pub open spec fn has_pretty_key(line: Seq<char>) -> bool {
    line.len() >= pretty_key().len() && line.take(pretty_key().len() as int) == pretty_key()
}

/// `s` with every leading copy of `p` removed.
pub open spec fn strip_prefix_all(s: Seq<char>, p: Seq<char>) -> Seq<char>
    decreases s.len(),
{
    if p.len() > 0 && p.len() <= s.len() && s.take(p.len() as int) == p {
        strip_prefix_all(s.skip(p.len() as int), p)
    } else {
        s
    }
}

/// `s` without its leading copies of `c`.
pub open spec fn trim_char_start(s: Seq<char>, c: char) -> Seq<char>
    decreases s.len(),
{
    if s.len() > 0 && s[0] == c {
        trim_char_start(s.drop_first(), c)
    } else {
        s
    }
}

/// `s` without its trailing copies of `c`.
pub open spec fn trim_char_end(s: Seq<char>, c: char) -> Seq<char>
    decreases s.len(),
{
    if s.len() > 0 && s[s.len() - 1] == c {
        trim_char_end(s.drop_last(), c)
    } else {
        s
    }
}

/// The value of a line that opens with the key: the text after the key,
/// with every further leading copy of the key removed and quotes trimmed
/// from both ends.
pub open spec fn pretty_value(line: Seq<char>) -> Seq<char> {
    trim_char_end(trim_char_start(strip_prefix_all(line, pretty_key()), '"'), '"')
}

/// The value of the first line that opens with the key, if any line does.
pub open spec fn first_pretty_line(lines: Seq<Seq<char>>) -> Option<Seq<char>>
    decreases lines.len(),
{
    if lines.len() == 0 {
        None
    } else if has_pretty_key(lines[0]) {
        Some(pretty_value(lines[0]))
    } else {
        first_pretty_line(lines.drop_first())
    }
}

/// The human-readable name the os-release text gives, when it gives one.
pub open spec fn pretty_name_of(content: Seq<char>) -> Option<Seq<char>> {
    first_pretty_line(split_lines(content))
}

/// Whether the suffix of `line` from position `q` opens with the key.
fn has_key_at(line: &str, q: usize) -> (r: bool)
    requires
        q <= line@.len(),
    ensures
        r == has_pretty_key(line@.skip(q as int)),
{
    let n: usize = line.unicode_len();
    let key: &str = "PRETTY_NAME=";
    proof {
        reveal_strlit("PRETTY_NAME=");
        assert(key@ =~= pretty_key());
    }
    if n - q < 12 {
        return false;
    }
    let mut i: usize = 0;
    while i < 12
        invariant
            q + 12 <= n,
            n == line@.len(),
            i <= 12,
            key@ == pretty_key(),
            forall|j: int| 0 <= j < i ==> line@[q + j] == pretty_key()[j],
        decreases 12 - i,
    {
        if line.get_char(q + i) != key.get_char(i) {
            proof {
                assert(line@.skip(q as int)[i as int] == line@[q + i]);
                assert(!has_pretty_key(line@.skip(q as int))) by {
                    if line@.skip(q as int).take(12) == pretty_key() {
                        assert(line@.skip(q as int).take(12)[i as int] == pretty_key()[i as int]);
                    }
                }
            }
            return false;
        }
        i = i + 1;
    }
    proof {
        assert(line@.skip(q as int).take(12) =~= pretty_key());
    }
    true
}

/// Returns the value of a key line: everything after the leading copies of
/// the key, quotes trimmed from both ends.
fn extract_pretty_value(line: &str) -> (r: String)
    ensures
        r@ == pretty_value(line@),
{
    let n: usize = line.unicode_len();
    let mut q: usize = 0;
    proof {
        assert(line@.skip(0) =~= line@);
    }
    while has_key_at(line, q)
        invariant
            q <= n,
            n == line@.len(),
            strip_prefix_all(line@, pretty_key()) == strip_prefix_all(
                line@.skip(q as int),
                pretty_key(),
            ),
        decreases n - q,
    {
        proof {
            assert(line@.skip(q as int).skip(12) =~= line@.skip(q as int + 12));
        }
        q = q + 12;
    }
    proof {
        assert(strip_prefix_all(line@, pretty_key()) == line@.skip(q as int));
    }
    let mut lo: usize = q;
    while lo < n && line.get_char(lo) == '"'
        invariant
            q <= lo <= n,
            n == line@.len(),
            trim_char_start(line@.skip(q as int), '"') == trim_char_start(
                line@.skip(lo as int),
                '"',
            ),
        decreases n - lo,
    {
        proof {
            assert(line@.skip(lo as int).len() > 0);
            assert(line@.skip(lo as int)[0] == line@[lo as int]);
            assert(line@.skip(lo as int).drop_first() =~= line@.skip(lo as int + 1));
        }
        lo = lo + 1;
    }
    proof {
        if lo == n {
            assert(line@.skip(lo as int) =~= Seq::<char>::empty());
        }
        assert(trim_char_start(line@.skip(q as int), '"') == line@.skip(lo as int));
        assert(line@.subrange(lo as int, n as int) =~= line@.skip(lo as int));
    }
    let mut hi: usize = n;
    while hi > lo && line.get_char(hi - 1) == '"'
        invariant
            lo <= hi <= n,
            n == line@.len(),
            trim_char_end(line@.skip(lo as int), '"') == trim_char_end(
                line@.subrange(lo as int, hi as int),
                '"',
            ),
        decreases hi,
    {
        proof {
            let t = line@.subrange(lo as int, hi as int);
            assert(t.len() > 0);
            assert(t[t.len() - 1] == line@[hi as int - 1]);
            assert(t.drop_last() =~= line@.subrange(lo as int, hi as int - 1));
        }
        hi = hi - 1;
    }
    proof {
        assert(trim_char_end(line@.subrange(lo as int, hi as int), '"') == line@.subrange(
            lo as int,
            hi as int,
        ));
    }
    let sub: &str = line.substring_char(lo, hi);
    sub.to_owned()
}

/// Extracts the human-readable name from os-release text, scanning the
/// lines in order for the first that opens with the key.
pub fn parse_pretty_name(content: &str) -> (r: Option<String>)
    ensures
        option_text_view(r) == pretty_name_of(content@),
{
    let n: usize = content.unicode_len();
    let mut p: usize = 0;
    proof {
        assert(content@.skip(0) =~= content@);
    }
    loop
        invariant
            p <= n,
            n == content@.len(),
            pretty_name_of(content@) == first_pretty_line(split_lines(content@.skip(p as int))),
        decreases n - p,
    {
        if p == n {
            proof {
                assert(content@.skip(p as int) =~= Seq::<char>::empty());
            }
            return None;
        }
        let rest: &str = content.substring_char(p, n);
        proof {
            assert(rest@ =~= content@.skip(p as int));
        }
        let rest_len: usize = n - p;
        let k: usize = find_char(rest, '\n');
        proof {
            lemma_find_char_at(rest@, '\n');
        }
        let line_end: usize = if k > 0 && rest.get_char(k - 1) == '\r' {
            k - 1
        } else {
            k
        };
        let line: &str = rest.substring_char(0, line_end);
        proof {
            if k == rest_len {
                assert(rest@.take(k as int) =~= rest@);
            }
            assert(strip_cr(rest@.take(k as int)) =~= rest@.take(line_end as int));
            assert(line@ =~= rest@.take(line_end as int));
            if k == rest_len {
                assert(split_lines(rest@) == seq![line@]);
            } else {
                assert(split_lines(rest@) == seq![line@] + split_lines(rest@.skip(k as int + 1)));
            }
        }
        if has_key_at(line, 0) {
            proof {
                assert(line@.skip(0) =~= line@);
                if k == rest_len {
                    assert(split_lines(rest@)[0] == line@);
                } else {
                    assert((seq![line@] + split_lines(rest@.skip(k as int + 1)))[0] == line@);
                }
            }
            return Some(extract_pretty_value(line));
        }
        proof {
            assert(line@.skip(0) =~= line@);
            if k == rest_len {
                assert(split_lines(rest@)[0] == line@);
                assert(seq![line@].drop_first() =~= Seq::<Seq<char>>::empty());
                assert(first_pretty_line(seq![line@]) == first_pretty_line(
                    Seq::<Seq<char>>::empty(),
                ));
                assert(first_pretty_line(Seq::<Seq<char>>::empty()) is None);
                assert(content@.skip(n as int) =~= Seq::<char>::empty());
                assert(split_lines(content@.skip(n as int)) == Seq::<Seq<char>>::empty());
            } else {
                let tail = split_lines(rest@.skip(k as int + 1));
                assert((seq![line@] + tail)[0] == line@);
                assert((seq![line@] + tail).drop_first() =~= tail);
                assert(first_pretty_line(seq![line@] + tail) == first_pretty_line(tail));
                assert(rest@.skip(k as int + 1) =~= content@.skip(p as int + k as int + 1));
            }
        }
        if k == rest_len {
            p = n;
        } else {
            p = p + k + 1;
        }
    }
}

} // verus!
