//! The name and the stem of the file that a path leads to.
//!
//! A path is read as a sequence of components with `/` between them. Empty
//! components and components `.` do not count.

use vstd::prelude::*;

verus! {

/// Where the part of `p` behind its last `/` begins.
pub open spec fn tail_start(p: Seq<char>) -> int
    decreases p.len(),
{
    if p.len() == 0 {
        0
    } else if p.last() == '/' {
        p.len() as int
    } else {
        tail_start(p.drop_last())
    }
}

/// Whether the last component of `p` is `.`, with nothing behind it.
pub open spec fn ends_in_dot(p: Seq<char>) -> bool {
    p.len() > 0 && p.last() == '.' && (p.len() == 1 || p[p.len() - 2] == '/')
}

/// The last component of `p`; `None` where `p` has no component, or where
/// its last one is `..`.
pub open spec fn file_name(p: Seq<char>) -> Option<Seq<char>>
    decreases p.len(),
{
    if p.len() == 0 {
        None
    } else if p.last() == '/' || ends_in_dot(p) {
        file_name(p.drop_last())
    } else {
        let name = p.skip(tail_start(p));
        if name == seq!['.', '.'] {
            None
        } else {
            Some(name)
        }
    }
}

/// The index of the last `.` of `name`, or -1 where it has none.
pub open spec fn last_dot(name: Seq<char>) -> int
    decreases name.len(),
{
    if name.len() == 0 {
        -1
    } else if name.last() == '.' {
        name.len() - 1
    } else {
        last_dot(name.drop_last())
    }
}

/// `name` up to its last `.`; all of `name` where it has no `.`, or none
/// but at its beginning.
pub open spec fn stem_of(name: Seq<char>) -> Seq<char> {
    if last_dot(name) <= 0 {
        name
    } else {
        name.take(last_dot(name))
    }
}

/// The stem of the file that `p` leads to, empty where `p` has no file name.
pub open spec fn file_stem(p: Seq<char>) -> Seq<char> {
    match file_name(p) {
        Some(name) => stem_of(name),
        None => Seq::empty(),
    }
}

/// Tells whether the component that ends before index `end` may be passed
/// over: it is empty or `.`.
fn passed_over(file: &str, end: usize) -> (b: bool)
    requires
        0 < end <= file@.len(),
    ensures
        b == (file@.take(end as int).last() == '/' || ends_in_dot(file@.take(end as int))),
{
    let c = file.get_char(end - 1);
    c == '/' || (c == '.' && (end == 1 || file.get_char(end - 2) == '/'))
}

/// Returns where the last component of `file` that counts ends, passing
/// over what stands behind it; 0 where no component counts.
fn component_end(file: &str) -> (end: usize)
    ensures
        end <= file@.len(),
        file_name(file@) == file_name(file@.take(end as int)),
        end > 0 ==> file@[end - 1] != '/' && !ends_in_dot(file@.take(end as int)),
{
    let n: usize = file.unicode_len();
    let mut end: usize = n;
    assert(file@.take(n as int) =~= file@);
    while end > 0 && passed_over(file, end)
        invariant
            end <= n,
            n == file@.len(),
            file_name(file@) == file_name(file@.take(end as int)),
        decreases end,
    {
        proof {
            assert(file@.take(end as int).drop_last() =~= file@.take(end - 1));
        }
        end -= 1;
    }
    end
}

/// Returns where the component of `file` that ends before `end` begins.
fn component_start(file: &str, end: usize) -> (start: usize)
    requires
        end <= file@.len(),
    ensures
        start <= end,
        start == tail_start(file@.take(end as int)),
{
    let mut start: usize = end;
    while start > 0 && file.get_char(start - 1) != '/'
        invariant
            start <= end <= file@.len(),
            tail_start(file@.take(end as int)) == tail_start(file@.take(start as int)),
        decreases start,
    {
        proof {
            assert(file@.take(start as int).drop_last() =~= file@.take(start - 1));
        }
        start -= 1;
    }
    start
}

/// Returns the index behind the last `.` between `start` and `end`, or
/// `start` where there is none.
fn behind_last_dot(file: &str, start: usize, end: usize) -> (dot: usize)
    requires
        start <= end <= file@.len(),
    ensures
        start <= dot <= end,
        dot - start - 1 == last_dot(file@.subrange(start as int, end as int)),
{
    let ghost name = file@.subrange(start as int, end as int);
    let mut dot: usize = end;
    assert(name.take(end - start) =~= name);
    while dot > start && file.get_char(dot - 1) != '.'
        invariant
            start <= dot <= end <= file@.len(),
            name == file@.subrange(start as int, end as int),
            last_dot(name) == last_dot(name.take(dot - start)),
        decreases dot,
    {
        proof {
            assert(name.take(dot - start).drop_last() =~= name.take(dot - start - 1));
        }
        dot -= 1;
    }
    dot
}

/// Returns the stem of the file that the path `file` leads to: its last
/// component up to the last `.` in it. A component with no `.` but at its
/// beginning is its own stem. The stem is empty where the path has no
/// components or ends in `..`.
pub fn stem(file: &str) -> (out: &str)
    ensures
        out@ == file_stem(file@),
{
    let end = component_end(file);
    if end == 0 {
        return file.substring_char(0, 0);
    }
    let start = component_start(file, end);
    let ghost name = file@.subrange(start as int, end as int);
    assert(file@.take(end as int).skip(start as int) =~= name);
    if end - start == 2 && file.get_char(start) == '.' && file.get_char(start + 1) == '.' {
        assert(name =~= seq!['.', '.']);
        return file.substring_char(0, 0);
    }
    let dot = behind_last_dot(file, start, end);
    if dot - start <= 1 {
        file.substring_char(start, end)
    } else {
        file.substring_char(start, dot - 1)
    }
}

} // verus!
