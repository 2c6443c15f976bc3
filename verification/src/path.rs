//! The components of a Unix path, as `std::path::Path` reads them: the
//! path splits at `/`, and empty and `.` components are skipped, except a
//! `.` that begins a relative path. The functions take the path's elements
//! (bytes or characters) with the elements that stand for `/` and `.`.
use vstd::prelude::*;

verus! {

/// Where the components of a path begin: after a leading separator, or
/// after a leading `.` component of a relative path, which `Path` keeps.
pub open spec fn body_start<A>(p: Seq<A>, sep: A, dot: A) -> int {
    if p.len() > 0 && p[0] == sep {
        1
    } else if p.len() > 0 && p[0] == dot && (p.len() == 1 || p[1] == sep) {
        1
    } else {
        0
    }
}

/// The position of the last separator in `p[floor..end]`, or -1.
pub open spec fn last_separator<A>(p: Seq<A>, sep: A, floor: int, end: int) -> int
    decreases end - floor,
{
    if end <= floor {
        -1
    } else if p[end - 1] == sep {
        end - 1
    } else {
        last_separator(p, sep, floor, end - 1)
    }
}

/// Where the last component of `p[..end]` starts.
pub open spec fn component_start<A>(p: Seq<A>, sep: A, floor: int, end: int) -> int {
    let s = last_separator(p, sep, floor, end);
    if s < 0 {
        floor
    } else {
        s + 1
    }
}

/// Where `p[..end]` ends without its last component and the separator
/// before it.
pub open spec fn component_cut<A>(p: Seq<A>, sep: A, floor: int, end: int) -> int {
    let s = last_separator(p, sep, floor, end);
    if s < 0 {
        floor
    } else {
        s
    }
}

/// Whether the last component of `p[..end]` is empty or `.`, which `Path`
/// skips.
pub open spec fn skipped_component<A>(p: Seq<A>, sep: A, dot: A, floor: int, end: int) -> bool {
    let start = component_start(p, sep, floor, end);
    end == start || (end == start + 1 && p[start] == dot)
}

/// The end of `p[..end]` once trailing separators and `.` components are
/// dropped, never below `floor`.
pub open spec fn trimmed_end<A>(p: Seq<A>, sep: A, dot: A, floor: int, end: int) -> int
    decreases end - floor via trimmed_end_decreases::<A>
{
    if end <= floor {
        end
    } else if skipped_component(p, sep, dot, floor, end) {
        trimmed_end(p, sep, dot, floor, component_cut(p, sep, floor, end))
    } else {
        end
    }
}

#[via_fn]
proof fn trimmed_end_decreases<A>(p: Seq<A>, sep: A, dot: A, floor: int, end: int) {
    lemma_last_separator(p, sep, floor, end);
}

/// Where the path's file name lies, `[start, end)`: its last component,
/// unless that is `..` or there is none (the root, or a lone `.`).
pub open spec fn file_name_span<A>(p: Seq<A>, sep: A, dot: A) -> Option<(int, int)> {
    let floor = body_start(p, sep, dot);
    let e = trimmed_end(p, sep, dot, floor, p.len() as int);
    let start = component_start(p, sep, floor, e);
    if e > floor && p.subrange(start, e) != seq![dot, dot] {
        Some((start, e))
    } else {
        None
    }
}

/// The file name of a path written as text (`Path::file_name`).
pub open spec fn path_file_name(path: Seq<char>) -> Option<Seq<char>> {
    match file_name_span(path, '/', '.') {
        Some((start, end)) => Some(path.subrange(start, end)),
        None => None,
    }
}

/// The directory in which a path's file name is replaced
/// (`Path::with_file_name`): the path without its file name and the
/// separators and `.` components before it, or the whole path when it has no
/// file name.
pub open spec fn file_name_base<A>(p: Seq<A>, sep: A, dot: A) -> Seq<A> {
    let floor = body_start(p, sep, dot);
    match file_name_span(p, sep, dot) {
        Some((start, end)) => p.subrange(
            0,
            trimmed_end(p, sep, dot, floor, component_cut(p, sep, floor, end)),
        ),
        None => p,
    }
}

pub proof fn lemma_last_separator<A>(p: Seq<A>, sep: A, floor: int, end: int)
    ensures
        last_separator(p, sep, floor, end) == -1 || (floor <= last_separator(p, sep, floor, end)
            < end && p[last_separator(p, sep, floor, end)] == sep),
    decreases end - floor,
{
    if end > floor && p[end - 1] != sep {
        lemma_last_separator(p, sep, floor, end - 1);
    }
}

pub proof fn lemma_trimmed_end<A>(p: Seq<A>, sep: A, dot: A, floor: int, end: int)
    requires
        0 <= floor <= end <= p.len(),
    ensures
        floor <= trimmed_end(p, sep, dot, floor, end) <= end,
    decreases end - floor,
{
    if end > floor && skipped_component(p, sep, dot, floor, end) {
        lemma_last_separator(p, sep, floor, end);
        lemma_trimmed_end(p, sep, dot, floor, component_cut(p, sep, floor, end));
    }
}

/// The position of the last `/` in `p[floor..end]`, or `end` when there is
/// none.
pub fn find_last_separator(p: &[u8], floor: usize, end: usize) -> (s: usize)
    requires
        floor <= end <= p@.len(),
    ensures
        s as int == if last_separator(p@, 0x2fu8, floor as int, end as int) < 0 {
            end as int
        } else {
            last_separator(p@, 0x2fu8, floor as int, end as int)
        },
{
    let mut i: usize = end;
    while i > floor && p[i - 1] != 0x2f
        invariant
            floor <= i <= end <= p@.len(),
            last_separator(p@, 0x2fu8, floor as int, end as int) == last_separator(
                p@,
                0x2fu8,
                floor as int,
                i as int,
            ),
        decreases i,
    {
        i = i - 1;
    }
    if i > floor {
        i - 1
    } else {
        end
    }
}

/// `trimmed_end` of a path held as bytes.
pub fn find_trimmed_end(p: &[u8], floor: usize, end: usize) -> (e: usize)
    requires
        floor <= end <= p@.len(),
    ensures
        e == trimmed_end(p@, 0x2fu8, 0x2eu8, floor as int, end as int),
        floor <= e <= end,
{
    proof {
        lemma_trimmed_end(p@, 0x2fu8, 0x2eu8, floor as int, end as int);
    }
    let mut e: usize = end;
    while e > floor
        invariant
            floor <= e <= end <= p@.len(),
            trimmed_end(p@, 0x2fu8, 0x2eu8, floor as int, e as int) == trimmed_end(
                p@,
                0x2fu8,
                0x2eu8,
                floor as int,
                end as int,
            ),
        decreases e,
    {
        let s = find_last_separator(p, floor, e);
        proof {
            lemma_last_separator(p@, 0x2fu8, floor as int, e as int);
        }
        let (start, cut) = if s < e {
            (s + 1, s)
        } else {
            (floor, floor)
        };
        if e == start || (e == start + 1 && p[start] == 0x2e) {
            e = cut;
        } else {
            return e;
        }
    }
    e
}

/// The bytes of `p` before its file name, as `file_name_base` gives them.
pub fn file_name_base_of(p: &[u8]) -> (base: Vec<u8>)
    ensures
        base@ == file_name_base(p@, 0x2fu8, 0x2eu8),
{
    let floor: usize = if p.len() > 0 && p[0] == 0x2f {
        1
    } else if p.len() > 0 && p[0] == 0x2e && (p.len() == 1 || p[1] == 0x2f) {
        1
    } else {
        0
    };
    let e = find_trimmed_end(p, floor, p.len());
    proof {
        lemma_last_separator(p@, 0x2fu8, floor as int, e as int);
    }
    let s = find_last_separator(p, floor, e);
    let (start, cut) = if s < e {
        (s + 1, s)
    } else {
        (floor, floor)
    };
    let is_parent = e >= start && e - start == 2 && p[start] == 0x2e && p[start + 1] == 0x2e;
    proof {
        let name = p@.subrange(start as int, e as int);
        if e == start + 2 {
            assert(is_parent == (name =~= seq![0x2eu8, 0x2eu8]));
        } else {
            assert(name.len() != 2);
            assert(name != seq![0x2eu8, 0x2eu8]);
        }
    }
    let end: usize = if e > floor && !is_parent {
        find_trimmed_end(p, floor, cut)
    } else {
        p.len()
    };
    let mut base: Vec<u8> = Vec::new();
    let mut i: usize = 0;
    while i < end
        invariant
            end <= p@.len(),
            i <= end,
            base@ == p@.subrange(0, i as int),
        decreases end - i,
    {
        base.push(p[i]);
        proof {
            assert(base@ =~= p@.subrange(0, i + 1));
        }
        i = i + 1;
    }
    proof {
        assert(p@.subrange(0, p@.len() as int) =~= p@);
    }
    base
}

} // verus!
