//! The complete default configuration: the base configuration with the key
//! bindings spliced in before its reference of environment variables.
use vstd::prelude::*;
use crate::messages::string_views;
use crate::text::{chars_of, is_blank, is_blank_str, join_strings, join_with, lines_of, owned, str_lines, string_push};

verus! {

/// The heading of the environment variable reference in the base
/// configuration.
pub open spec fn env_reference_marker() -> Seq<char> {
    "# =============================================================================\n# ENVIRONMENT VARIABLE REFERENCE"@
}

/// `needle` occurs in `hay` starting at character `k`.
pub open spec fn occurs_at(hay: Seq<char>, needle: Seq<char>, k: int) -> bool {
    0 <= k && k + needle.len() <= hay.len() && hay.subrange(k, k + needle.len()) == needle
}

/// `k` is where `needle` first occurs in `hay`.
pub open spec fn first_at(hay: Seq<char>, needle: Seq<char>, k: int) -> bool {
    occurs_at(hay, needle, k) && forall|j: int| 0 <= j < k ==> !occurs_at(hay, needle, j)
}

/// Where `needle` first occurs in `hay`, in characters, if it occurs.
pub open spec fn first_occurrence(hay: Seq<char>, needle: Seq<char>) -> Option<int> {
    if exists|k: int| occurs_at(hay, needle, k) {
        Some(choose|k: int| first_at(hay, needle, k))
    } else {
        None
    }
}

/// A comment or blank line of the header of the key bindings file.
pub open spec fn is_header_line(line: Seq<char>) -> bool {
    (line.len() > 0 && line[0] == '#') || is_blank(line)
}

/// The position of the first line from `i` on that is not a header line.
pub open spec fn header_end_from(lines: Seq<Seq<char>>, i: int) -> int
    decreases lines.len() - i,
{
    if 0 <= i < lines.len() && is_header_line(lines[i]) {
        header_end_from(lines, i + 1)
    } else {
        i
    }
}

/// The key bindings without their leading comment and blank lines, joined
/// with newlines.
pub open spec fn keys_section(keys: Seq<char>) -> Seq<char> {
    let lines = lines_of(keys);
    join_with(lines.skip(header_end_from(lines, 0)), "\n"@)
}

/// The complete default configuration: the key bindings (without their
/// header) between the base configuration and its environment variable
/// reference, or the whole key bindings file appended where the base
/// configuration has no such reference.
pub open spec fn complete_config_text(config: Seq<char>, keys: Seq<char>) -> Seq<char> {
    match first_occurrence(config, env_reference_marker()) {
        Some(k) => config.take(k) + "\n"@ + keys_section(keys) + "\n\n"@ + config.skip(k),
        None => config + "\n\n"@ + keys,
    }
}

/// Appends the characters `from..to` of `cs` to `out`.
fn push_chars(out: &mut String, cs: &Vec<char>, from: usize, to: usize)
    requires
        from <= to <= cs.len(),
    ensures
        final(out)@ == old(out)@ + cs@.subrange(from as int, to as int),
{
    let mut i: usize = from;
    while i < to
        invariant
            from <= i <= to <= cs.len(),
            out@ == old(out)@ + cs@.subrange(from as int, i as int),
        decreases to - i,
    {
        string_push(out, cs[i]);
        proof {
            assert(cs@.subrange(from as int, i + 1) =~= cs@.subrange(from as int, i as int).push(
                cs@[i as int],
            ));
        }
        i = i + 1;
    }
}

/// Whether `needle` occurs in `hay` at `k`.
fn matches_at(hay: &Vec<char>, needle: &Vec<char>, k: usize) -> (r: bool)
    requires
        k + needle.len() <= hay.len(),
    ensures
        r == occurs_at(hay@, needle@, k as int),
{
    let mut i: usize = 0;
    while i < needle.len()
        invariant
            i <= needle.len(),
            k + needle.len() <= hay.len(),
            forall|t: int| 0 <= t < i ==> hay@[k + t] == needle@[t],
        decreases needle.len() - i,
    {
        if hay[k + i] != needle[i] {
            proof {
                assert(hay@.subrange(k as int, k + needle.len())[i as int] != needle@[i as int]);
            }
            return false;
        }
        i = i + 1;
    }
    proof {
        assert(hay@.subrange(k as int, k + needle.len()) =~= needle@);
    }
    true
}

/// Where `needle` first occurs in `hay`.
fn find_chars(hay: &Vec<char>, needle: &Vec<char>) -> (r: Option<usize>)
    ensures
        r matches Some(k) ==> first_at(hay@, needle@, k as int),
        r is None ==> forall|k: int| !occurs_at(hay@, needle@, k),
{
    if needle.len() > hay.len() {
        return None;
    }
    let last = hay.len() - needle.len();
    let mut k: usize = 0;
    loop
        invariant
            last == hay.len() - needle.len(),
            k <= last,
            forall|j: int| 0 <= j < k ==> !occurs_at(hay@, needle@, j),
        decreases last - k,
    {
        if matches_at(hay, needle, k) {
            return Some(k);
        }
        if k == last {
            return None;
        }
        k = k + 1;
    }
}

/// The first occurrence found is the one the specification names.
proof fn lemma_first_occurrence(hay: Seq<char>, needle: Seq<char>, k: int)
    requires
        first_at(hay, needle, k),
    ensures
        first_occurrence(hay, needle) == Some(k),
{
    assert(exists|j: int| occurs_at(hay, needle, j));
    let c = choose|j: int| first_at(hay, needle, j);
    assert(first_at(hay, needle, c));
    if c < k {
        assert(!occurs_at(hay, needle, c));
    } else if k < c {
        assert(!occurs_at(hay, needle, k));
    }
}

/// Skipping a header line leaves where the header ends unchanged.
proof fn lemma_header_step(lines: Seq<Seq<char>>, i: int)
    requires
        0 <= i < lines.len(),
        is_header_line(lines[i]),
    ensures
        header_end_from(lines, i) == header_end_from(lines, i + 1),
{
}

/// Whether `line` is a comment or blank line of the header.
fn is_header(line: &str) -> (r: bool)
    ensures
        r == is_header_line(line@),
{
    (line.unicode_len() > 0 && line.get_char(0) == '#') || is_blank_str(line)
}

/// The key bindings without their header, joined with newlines.
fn keys_without_header(keys: &str) -> (r: String)
    ensures
        r@ == keys_section(keys@),
{
    let lines = str_lines(keys);
    let ghost lv = string_views(lines@);
    proof {
        assert(lv == lines@.map_values(|l: String| l@));
    }
    let mut i: usize = 0;
    while i < lines.len() && is_header(lines[i].as_str())
        invariant
            i <= lines.len(),
            lv == string_views(lines@),
            header_end_from(lv, 0) == header_end_from(lv, i as int),
        decreases lines.len() - i,
    {
        proof {
            assert(lv[i as int] == lines@[i as int]@);
            lemma_header_step(lv, i as int);
        }
        i = i + 1;
    }
    proof {
        if i < lines.len() {
            assert(lv[i as int] == lines@[i as int]@);
        }
        assert(header_end_from(lv, i as int) == i);
    }
    let mut rest: Vec<String> = Vec::new();
    let mut j: usize = i;
    while j < lines.len()
        invariant
            i <= j <= lines.len(),
            lv == string_views(lines@),
            string_views(rest@) =~= lv.subrange(i as int, j as int),
        decreases lines.len() - j,
    {
        let ghost before = rest@;
        rest.push(lines[j].clone());
        proof {
            assert(string_views(rest@) =~= string_views(before).push(lv[j as int]));
        }
        j = j + 1;
    }
    proof {
        assert(lv.subrange(i as int, lines.len() as int) =~= lv.skip(i as int));
        assert(lv =~= lines_of(keys@));
    }
    join_strings(&rest, "\n")
}

/// The complete default configuration from the base configuration and the
/// key bindings file (see [`complete_config_text`]).
pub fn get_complete_default_config(config: &str, keys: &str) -> (r: String)
    ensures
        r@ == complete_config_text(config@, keys@),
{
    let cs = chars_of(config);
    let marker = chars_of(
        "# =============================================================================\n# ENVIRONMENT VARIABLE REFERENCE",
    );
    proof {
        reveal_strlit(
            "# =============================================================================\n# ENVIRONMENT VARIABLE REFERENCE",
        );
    }
    match find_chars(&cs, &marker) {
        Some(k) => {
            proof {
                lemma_first_occurrence(config@, env_reference_marker(), k as int);
            }
            let mut r = String::new();
            push_chars(&mut r, &cs, 0, k);
            r.append("\n");
            let section = keys_without_header(keys);
            r.append(section.as_str());
            r.append("\n\n");
            push_chars(&mut r, &cs, k, cs.len());
            proof {
                assert(cs@.subrange(0, k as int) =~= config@.take(k as int));
                assert(cs@.subrange(k as int, cs@.len() as int) =~= config@.skip(k as int));
            }
            r
        },
        None => {
            let mut r = owned(config);
            r.append("\n\n");
            r.append(keys);
            r
        },
    }
}

} // verus!
