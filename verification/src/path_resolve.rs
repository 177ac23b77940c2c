//! Derives the output file path from the input path: the input's directory
//! prefix, the input's file stem, and the fixed suffix `.with_data.mkv`.
//!
//! Paths are byte strings with `/` (byte 47) as the separator and `.`
//! (byte 46) as the extension mark. Trailing separators are ignored; a path
//! whose file name is `.` or `..` has no stem; a file name whose only dot
//! leads it, or that has none, is its own stem.

use vstd::prelude::*;

verus! {

/// Why no output path could be derived.
#[derive(Clone, Copy, Debug, PartialEq, Eq, Structural)]
pub enum PathError {
    /// The input has no parent directory component (it is empty or all separators).
    NoParent,
    /// The input has no file-stem component (its file name is `.` or `..`).
    NoStem,
}

/// Length of `s` once trailing separators are dropped.
pub open spec fn trimmed_len(s: Seq<u8>) -> int
    decreases s.len(),
{
    if s.len() == 0 {
        0
    } else if s.last() == 47u8 {
        trimmed_len(s.drop_last())
    } else {
        s.len() as int
    }
}

/// `s` without its trailing separators.
pub open spec fn trimmed(s: Seq<u8>) -> Seq<u8> {
    s.take(trimmed_len(s))
}

/// Index at which the file name begins within a trimmed path `t`:
/// the position just after the last separator, or `0` when there is none.
pub open spec fn name_start(t: Seq<u8>) -> int
    decreases t.len(),
{
    if t.len() == 0 {
        0
    } else if t.last() == 47u8 {
        t.len() as int
    } else {
        name_start(t.drop_last())
    }
}

/// The directory prefix of `s`: everything up to and including the separator
/// that precedes the file name (empty for a bare file name).
pub open spec fn dir_prefix(s: Seq<u8>) -> Seq<u8> {
    trimmed(s).take(name_start(trimmed(s)))
}

/// The file name of `s`: the last component of the trimmed path.
pub open spec fn file_name(s: Seq<u8>) -> Seq<u8> {
    trimmed(s).subrange(name_start(trimmed(s)), trimmed(s).len() as int)
}

/// A parent directory component exists unless the path is empty or all
/// separators.
pub open spec fn has_parent(s: Seq<u8>) -> bool {
    trimmed_len(s) > 0
}

/// A file-stem component exists unless the file name is `.` or `..`.
pub open spec fn has_stem(s: Seq<u8>) -> bool {
    file_name(s) != seq![46u8] && file_name(s) != seq![46u8, 46u8]
}

/// Largest index `i >= 1` with `f[i] == 46` (a dot), or `0` when there is
/// no such index.
pub open spec fn last_dot(f: Seq<u8>) -> int
    decreases f.len(),
{
    if f.len() <= 1 {
        0
    } else if f.last() == 46u8 {
        f.len() - 1
    } else {
        last_dot(f.drop_last())
    }
}

/// The stem of a file name `f`: the part before its last dot; the whole of
/// `f` when the only dot leads it or there is none.
pub open spec fn stem_of(f: Seq<u8>) -> Seq<u8> {
    if last_dot(f) == 0 {
        f
    } else {
        f.take(last_dot(f))
    }
}

/// The fixed output suffix, `.with_data.mkv` as bytes.
pub open spec fn out_suffix() -> Seq<u8> {
    seq![46u8, 119u8, 105u8, 116u8, 104u8, 95u8, 100u8, 97u8, 116u8, 97u8, 46u8, 109u8, 107u8, 118u8]
}

/// The derived output path: directory prefix, then stem, then suffix.
pub open spec fn resolved_path(s: Seq<u8>) -> Seq<u8> {
    dir_prefix(s) + stem_of(file_name(s)) + out_suffix()
}

/// What resolution returns on any input: the derived path, or the error
/// naming the missing component, the parent checked first.
pub open spec fn resolve_spec(s: Seq<u8>) -> Result<Seq<u8>, PathError> {
    if !has_parent(s) {
        Err(PathError::NoParent)
    } else if !has_stem(s) {
        Err(PathError::NoStem)
    } else {
        Ok(resolved_path(s))
    }
}

proof fn lemma_trimmed_len_bounds(s: Seq<u8>)
    ensures
        0 <= trimmed_len(s) <= s.len(),
    decreases s.len(),
{
    if s.len() == 0 {
    } else if s.last() == 47u8 {
        lemma_trimmed_len_bounds(s.drop_last());
    }
}

proof fn lemma_name_start_bounds(t: Seq<u8>)
    ensures
        0 <= name_start(t) <= t.len(),
    decreases t.len(),
{
    if t.len() == 0 {
    } else if t.last() == 47u8 {
    } else {
        lemma_name_start_bounds(t.drop_last());
    }
}

/// The length of `input` once trailing separators are dropped.
fn trimmed_length(input: &Vec<u8>) -> (t: usize)
    ensures
        t as int == trimmed_len(input@),
        t <= input.len(),
{
    proof {
        lemma_trimmed_len_bounds(input@);
        assert(input@.take(input.len() as int) =~= input@);
    }
    let mut t_len: usize = input.len();
    while t_len > 0 && input[t_len - 1] == 47u8
        invariant
            t_len <= input.len(),
            trimmed_len(input@) == trimmed_len(input@.take(t_len as int)),
        decreases t_len,
    {
        proof {
            assert(input@.take(t_len as int).drop_last() =~= input@.take(t_len - 1));
            assert(input@.take(t_len as int).last() == input@[t_len - 1]);
        }
        t_len -= 1;
    }
    proof {
        if t_len > 0 {
            assert(input@.take(t_len as int).last() == input@[t_len - 1]);
        }
    }
    t_len
}

/// Index at which the file name of `input` begins, the trimmed length given.
fn name_start_index(input: &Vec<u8>, t_len: usize) -> (ns: usize)
    requires
        t_len as int == trimmed_len(input@),
        t_len <= input.len(),
    ensures
        ns as int == name_start(trimmed(input@)),
        ns <= t_len,
{
    let ghost tv: Seq<u8> = trimmed(input@);
    let mut ns: usize = t_len;
    proof {
        assert(tv.take(t_len as int) =~= tv);
    }
    while ns > 0 && input[ns - 1] != 47u8
        invariant
            ns <= t_len,
            t_len <= input.len(),
            tv == trimmed(input@),
            tv.len() == t_len as int,
            name_start(tv) == name_start(tv.take(ns as int)),
            forall|k: int| 0 <= k < t_len ==> tv[k] == input@[k],
        decreases ns,
    {
        proof {
            assert(tv.take(ns as int).drop_last() =~= tv.take(ns - 1));
            assert(tv.take(ns as int).last() == tv[ns - 1]);
        }
        ns -= 1;
    }
    proof {
        if ns > 0 {
            assert(tv.take(ns as int).last() == tv[ns - 1]);
        }
    }
    ns
}

/// Copies `input[from..to]` into a fresh byte string.
fn copy_range(input: &Vec<u8>, from: usize, to: usize) -> (r: Vec<u8>)
    requires
        from <= to <= input.len(),
    ensures
        r@ == input@.subrange(from as int, to as int),
{
    let mut r: Vec<u8> = Vec::new();
    let mut k: usize = 0;
    while k < to - from
        invariant
            from <= to <= input.len(),
            k <= to - from,
            r@.len() == k as int,
            forall|m: int| 0 <= m < k ==> r@[m] == input@[from + m],
        decreases to - from - k,
    {
        r.push(input[from + k]);
        k += 1;
    }
    proof {
        assert(r@ =~= input@.subrange(from as int, to as int));
    }
    r
}

/// Where the stem of the file name `fname` ends.
fn stem_end_index(fname: &Vec<u8>) -> (e: usize)
    ensures
        e <= fname.len(),
        stem_of(fname@) == fname@.take(e as int),
{
    let mut d: usize = fname.len();
    proof {
        assert(fname@.take(fname.len() as int) =~= fname@);
    }
    while d > 1 && fname[d - 1] != 46u8
        invariant
            d <= fname.len(),
            last_dot(fname@) == last_dot(fname@.take(d as int)),
        decreases d,
    {
        proof {
            assert(fname@.take(d as int).drop_last() =~= fname@.take(d - 1));
            assert(fname@.take(d as int).last() == fname@[d - 1]);
        }
        d -= 1;
    }
    if d > 1 {
        proof {
            assert(fname@.take(d as int).last() == fname@[d - 1]);
            assert(last_dot(fname@) == d - 1);
        }
        d - 1
    } else {
        proof {
            assert(fname@.take(d as int).len() <= 1);
            assert(last_dot(fname@) == 0);
            assert(fname@.take(fname.len() as int) =~= fname@);
        }
        fname.len()
    }
}

/// Appends the first `n` bytes of `src` to `out`.
fn append_prefix(out: &mut Vec<u8>, src: &Vec<u8>, n: usize)
    requires
        n <= src.len(),
    ensures
        final(out)@ == old(out)@ + src@.take(n as int),
{
    let mut j: usize = 0;
    while j < n
        invariant
            n <= src.len(),
            j <= n,
            out@.len() == old(out)@.len() + j,
            out@.take(old(out)@.len() as int) == old(out)@,
            forall|m: int| 0 <= m < j ==> out@[old(out)@.len() + m] == src@[m],
        decreases n - j,
    {
        out.push(src[j]);
        proof {
            assert(out@.take(old(out)@.len() as int) =~= old(out)@);
        }
        j += 1;
    }
    proof {
        assert(out@ =~= old(out)@ + src@.take(n as int));
    }
}

/// Appends the fixed output suffix to `out`.
fn append_suffix(out: &mut Vec<u8>)
    ensures
        final(out)@ == old(out)@ + out_suffix(),
{
    out.push(46u8);
    out.push(119u8);
    out.push(105u8);
    out.push(116u8);
    out.push(104u8);
    out.push(95u8);
    out.push(100u8);
    out.push(97u8);
    out.push(116u8);
    out.push(97u8);
    out.push(46u8);
    out.push(109u8);
    out.push(107u8);
    out.push(118u8);
    proof {
        assert(out@ =~= old(out)@ + out_suffix());
    }
}

/// Derives the output path for `input`, or says which component is missing.
pub fn resolve_output_path(input: &Vec<u8>) -> (r: Result<Vec<u8>, PathError>)
    ensures
        match r {
            Ok(out) => resolve_spec(input@) == Ok::<Seq<u8>, PathError>(out@),
            Err(e) => resolve_spec(input@) == Err::<Seq<u8>, PathError>(e),
        },
{
    let t_len: usize = trimmed_length(input);
    if t_len == 0 {
        return Err(PathError::NoParent);
    }
    let ns: usize = name_start_index(input, t_len);
    let fname: Vec<u8> = copy_range(input, ns, t_len);
    proof {
        assert(fname@ =~= file_name(input@));
    }

    // A file name of `.` or `..` has no stem.
    let dot1: bool = fname.len() == 1 && fname[0] == 46u8;
    let dot2: bool = fname.len() == 2 && fname[0] == 46u8 && fname[1] == 46u8;
    if dot1 || dot2 {
        proof {
            if dot1 {
                assert(fname@ =~= seq![46u8]);
            } else {
                assert(fname@ =~= seq![46u8, 46u8]);
            }
        }
        return Err(PathError::NoStem);
    }
    proof {
        assert(fname@ != seq![46u8]) by {
            if fname@ == seq![46u8] {
                assert(fname@.len() == 1);
                assert(fname@[0] == 46u8);
            }
        }
        assert(fname@ != seq![46u8, 46u8]) by {
            if fname@ == seq![46u8, 46u8] {
                assert(fname@.len() == 2);
                assert(fname@[0] == 46u8);
                assert(fname@[1] == 46u8);
            }
        }
    }

    let stem_end: usize = stem_end_index(&fname);
    let mut out: Vec<u8> = copy_range(input, 0, ns);
    proof {
        assert(out@ =~= dir_prefix(input@));
    }
    append_prefix(&mut out, &fname, stem_end);
    append_suffix(&mut out);
    proof {
        assert(out@ == resolved_path(input@));
    }
    Ok(out)
}

} // verus!
