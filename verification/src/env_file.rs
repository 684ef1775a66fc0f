//! The key=value file that persists the two API keys: replacing or
//! appending one key's line in the file's lines, and rendering the lines
//! back to the file's text. Reading and writing the file itself is I/O and
//! stays outside; this module owns the editing rules.

use vstd::prelude::*;
use vstd::string::*;

use crate::text::{spec_starts_with, str_starts_with};

verus! {

/// The line that stores `value` under `key`.
pub open spec fn spec_env_line(key: Seq<char>, value: Seq<char>) -> Seq<char> {
    key + "="@ + value
}

/// Whether `line` stores some value under `key`.
pub open spec fn spec_is_key_line(line: Seq<char>, key: Seq<char>) -> bool {
    spec_starts_with(line, key + "="@)
}

/// The index of the first line that stores a value under `key`, or -1 when
/// no line does.
pub open spec fn spec_key_line_index(lines: Seq<Seq<char>>, key: Seq<char>) -> int
    decreases lines.len(),
{
    if lines.len() == 0 {
        -1
    } else if spec_is_key_line(lines[0], key) {
        0
    } else {
        let rest = spec_key_line_index(lines.drop_first(), key);
        if rest == -1 {
            -1
        } else {
            rest + 1
        }
    }
}

/// What `spec_key_line_index` finds: either no line stores `key`, or the
/// found index is the first line that does.
pub proof fn lemma_key_line_index(lines: Seq<Seq<char>>, key: Seq<char>)
    ensures
        spec_key_line_index(lines, key) == -1 ==> forall|i: int|
            0 <= i < lines.len() ==> !spec_is_key_line(lines[i], key),
        spec_key_line_index(lines, key) != -1 ==> {
            let k = spec_key_line_index(lines, key);
            &&& 0 <= k < lines.len()
            &&& spec_is_key_line(lines[k], key)
            &&& forall|i: int| 0 <= i < k ==> !spec_is_key_line(lines[i], key)
        },
    decreases lines.len(),
{
    if lines.len() == 0 {
    } else if spec_is_key_line(lines[0], key) {
    } else {
        lemma_key_line_index(lines.drop_first(), key);
        let rest = spec_key_line_index(lines.drop_first(), key);
        if rest == -1 {
            assert forall|i: int| 0 <= i < lines.len() implies !spec_is_key_line(
                lines[i],
                key,
            ) by {
                if i > 0 {
                    assert(lines.drop_first()[i - 1] == lines[i]);
                }
            }
        } else {
            assert(lines.drop_first()[rest] == lines[rest + 1]);
            assert forall|i: int| 0 <= i < rest + 1 implies !spec_is_key_line(
                lines[i],
                key,
            ) by {
                if i > 0 {
                    assert(lines.drop_first()[i - 1] == lines[i]);
                }
            }
        }
    }
}

/// The lines after storing `value` under `key`: the first line that stores
/// `key` is replaced, and if none does, a new line is appended.
pub open spec fn spec_upsert(lines: Seq<Seq<char>>, key: Seq<char>, value: Seq<char>) -> Seq<
    Seq<char>,
> {
    let k = spec_key_line_index(lines, key);
    if k == -1 {
        lines.push(spec_env_line(key, value))
    } else {
        lines.update(k, spec_env_line(key, value))
    }
}

/// The line that stores `value` under `key`.
pub fn env_line(key: &str, value: &str) -> (r: String)
    ensures
        r@ == spec_env_line(key@, value@),
{
    let mut r = key.to_owned();
    r.append("=");
    r.append(value);
    r
}

/// Store `value` under `key` in the file's lines, as `spec_upsert`
/// describes. The given lines are left untouched.
pub fn upsert_env_line(lines: &Vec<String>, key: &str, value: &str) -> (r: Vec<String>)
    ensures
        r@.map_values(|s: String| s@) == spec_upsert(
            lines@.map_values(|s: String| s@),
            key@,
            value@,
        ),
{
    let ghost dv = lines@.map_values(|s: String| s@);
    let ghost k = spec_key_line_index(dv, key@);
    proof {
        lemma_key_line_index(dv, key@);
    }
    let new_line = env_line(key, value);
    let mut prefix = key.to_owned();
    prefix.append("=");
    let mut r: Vec<String> = Vec::new();
    let mut replaced = false;
    let mut i: usize = 0;
    while i < lines.len()
        invariant
            dv == lines@.map_values(|s: String| s@),
            k == spec_key_line_index(dv, key@),
            k == -1 ==> forall|j: int| 0 <= j < dv.len() ==> !spec_is_key_line(dv[j], key@),
            k != -1 ==> 0 <= k < dv.len() && spec_is_key_line(dv[k], key@) && forall|j: int|
                0 <= j < k ==> !spec_is_key_line(dv[j], key@),
            i <= lines.len(),
            new_line@ == spec_env_line(key@, value@),
            prefix@ == key@ + "="@,
            replaced == (k != -1 && k < i),
            r@.len() == i,
            !replaced ==> r@.map_values(|s: String| s@) == dv.take(i as int),
            replaced ==> r@.map_values(|s: String| s@) == dv.take(i as int).update(k, new_line@),
        decreases lines.len() - i,
    {
        if !replaced && str_starts_with(lines[i].as_str(), prefix.as_str()) {
            let ghost prev = r@.map_values(|s: String| s@);
            r.push(new_line.clone());
            replaced = true;
            proof {
                assert(spec_is_key_line(dv[i as int], key@));
                assert(k == i as int);
                assert(r@.map_values(|s: String| s@) =~= prev.push(new_line@));
                assert(prev.push(new_line@) =~= dv.take(i + 1).update(k, new_line@));
            }
        } else {
            let ghost prev = r@.map_values(|s: String| s@);
            r.push(lines[i].clone());
            proof {
                assert(r@.map_values(|s: String| s@) =~= prev.push(dv[i as int]));
                if replaced {
                    assert(prev.push(dv[i as int]) =~= dv.take(i + 1).update(k, new_line@));
                } else {
                    assert(!spec_is_key_line(dv[i as int], key@));
                    assert(prev.push(dv[i as int]) =~= dv.take(i + 1));
                }
            }
        }
        i = i + 1;
    }
    if !replaced {
        r.push(new_line);
        proof {
            assert(dv.take(dv.len() as int) =~= dv);
            assert(r@.map_values(|s: String| s@) =~= spec_upsert(dv, key@, value@));
        }
    } else {
        proof {
            assert(dv.take(dv.len() as int) =~= dv);
            assert(r@.map_values(|s: String| s@) =~= spec_upsert(dv, key@, value@));
        }
    }
    r
}

/// The lines joined with single newlines, in order.
pub open spec fn spec_join_lines(lines: Seq<Seq<char>>) -> Seq<char>
    decreases lines.len(),
{
    if lines.len() == 0 {
        Seq::empty()
    } else if lines.len() == 1 {
        lines[0]
    } else {
        spec_join_lines(lines.drop_last()) + "\n"@ + lines.last()
    }
}

/// The file text for the given lines: the lines joined with newlines, with
/// one newline appended when the text is non-empty and does not already end
/// with one.
pub open spec fn spec_env_content(lines: Seq<Seq<char>>) -> Seq<char> {
    let j = spec_join_lines(lines);
    if j.len() == 0 {
        j
    } else if j.last() == '\n' {
        j
    } else {
        j + "\n"@
    }
}

/// Render the file's lines back to the file's text, as `spec_env_content`
/// describes.
pub fn render_env_content(lines: &Vec<String>) -> (r: String)
    ensures
        r@ == spec_env_content(lines@.map_values(|s: String| s@)),
{
    let ghost dv = lines@.map_values(|s: String| s@);
    let mut r = String::new();
    let mut i: usize = 0;
    proof {
        assert(r@ =~= spec_join_lines(dv.take(0)));
    }
    while i < lines.len()
        invariant
            dv == lines@.map_values(|s: String| s@),
            i <= lines.len(),
            r@ == spec_join_lines(dv.take(i as int)),
        decreases lines.len() - i,
    {
        if i > 0 {
            r.append("\n");
        }
        r.append(lines[i].as_str());
        proof {
            let t = dv.take(i + 1);
            assert(t.drop_last() =~= dv.take(i as int));
            assert(t.last() == dv[i as int]);
            if i == 0 {
                assert(r@ =~= spec_join_lines(t));
            } else {
                assert(r@ =~= spec_join_lines(t));
            }
        }
        i = i + 1;
    }
    proof {
        assert(dv.take(dv.len() as int) =~= dv);
    }
    let n = r.as_str().unicode_len();
    if n > 0 {
        let last = r.as_str().get_char(n - 1);
        if last != '\n' {
            r.append("\n");
        }
    }
    r
}

} // verus!
