//! Pure path computations: leaf names and rename destinations.
//!
//! Paths are handled as plain text with `/` separators. The functions
//! here only compute names; the filesystem operations that use them
//! are the caller's job.

use vstd::prelude::*;
use crate::errors::Error;

verus! {

/// `s` with trailing separators and trailing `.` components removed:
/// what is left is the prefix whose last component can name an entry,
/// as `Path::file_name` sees a path.
pub open spec fn trim_path_tail(s: Seq<char>) -> Seq<char>
    decreases s.len(),
{
    if s.len() == 0 {
        s
    } else if s.last() == '/' {
        trim_path_tail(s.drop_last())
    } else if s.last() == '.' && (s.len() == 1 || s[s.len() - 2] == '/') {
        trim_path_tail(s.drop_last())
    } else {
        s
    }
}

/// The text after the last separator: the entry's leaf name.
pub open spec fn leaf(s: Seq<char>) -> Seq<char>
    decreases s.len(),
{
    if s.len() == 0 {
        Seq::<char>::empty()
    } else if s.last() == '/' {
        Seq::<char>::empty()
    } else {
        leaf(s.drop_last()) + seq![s.last()]
    }
}

/// A usable leaf name: nonempty and neither the current-directory nor
/// the parent-directory entry.
pub open spec fn usable_leaf(l: Seq<char>) -> bool {
    &&& l.len() > 0
    &&& !(l.len() == 1 && l[0] == '.')
    &&& !(l.len() == 2 && l[0] == '.' && l[1] == '.')
}

/// `s` up to and including its last separator; empty when there is
/// none.
pub open spec fn dir_prefix(s: Seq<char>) -> Seq<char>
    decreases s.len(),
{
    if s.len() == 0 {
        Seq::<char>::empty()
    } else if s.last() == '/' {
        s
    } else {
        dir_prefix(s.drop_last())
    }
}

/// What `name_or_dir_name` returns: the given name when there is one,
/// else the path's leaf name after trailing separators and trailing
/// `.` components are dropped, and an error when that leaf is
/// unusable.
pub open spec fn name_or_dir_name_spec(name: Option<String>, path: Seq<char>) -> Result<
    Seq<char>,
    Error,
> {
    match name {
        Option::Some(n) => Result::Ok(n@),
        Option::None => {
            let l = leaf(trim_path_tail(path));
            if usable_leaf(l) {
                Result::Ok(l)
            } else {
                Result::Err(Error::IoError)
            }
        },
    }
}

/// Where `cs` ends once trailing separators and trailing `.`
/// components are dropped.
fn trim_end(cs: &Vec<char>) -> (end: usize)
    ensures
        end <= cs@.len(),
        cs@.len() <= usize::MAX,
        cs@.take(end as int) == trim_path_tail(cs@),
{
    let mut end: usize = cs.len();
    proof {
        assert(cs@.take(end as int) =~= cs@);
    }
    while end > 0 && (cs[end - 1] == '/' || (cs[end - 1] == '.' && (end == 1 || cs[end - 2]
        == '/')))
        invariant
            end <= cs@.len(),
            cs@.len() <= usize::MAX,
            trim_path_tail(cs@) == trim_path_tail(cs@.take(end as int)),
        decreases end,
    {
        proof {
            assert(cs@.take(end as int).len() == end);
            assert(cs@.take(end as int).last() == cs@[end - 1]);
            if end >= 2 {
                assert(cs@.take(end as int)[end - 2] == cs@[end - 2]);
            }
            assert(cs@.take(end as int).drop_last() =~= cs@.take(end as int - 1));
        }
        end = end - 1;
    }
    proof {
        if end > 0 {
            assert(cs@.take(end as int).len() == end);
            assert(cs@.take(end as int).last() == cs@[end - 1]);
            if end >= 2 {
                assert(cs@.take(end as int)[end - 2] == cs@[end - 2]);
            }
        }
        assert(trim_path_tail(cs@) == cs@.take(end as int));
    }
    end
}

/// The leaf name of `cs` after trailing separators and trailing `.`
/// components are dropped.
fn leaf_exec(cs: &Vec<char>) -> (r: Vec<char>)
    ensures
        r@ == leaf(trim_path_tail(cs@)),
{
    let end = trim_end(cs);
    let ghost t = cs@.take(end as int);
    let mut start: usize = end;
    proof {
        assert(t.take(end as int) =~= t);
        assert(t.subrange(end as int, end as int) =~= Seq::<char>::empty());
        assert(leaf(t) + Seq::<char>::empty() =~= leaf(t));
    }
    while start > 0 && cs[start - 1] != '/'
        invariant
            start <= end <= cs@.len(),
            cs@.len() <= usize::MAX,
            t == cs@.take(end as int),
            leaf(t) == leaf(t.take(start as int)) + t.subrange(start as int, end as int),
        decreases start,
    {
        proof {
            assert(t.take(start as int).last() == cs@[start - 1]);
            assert(t.take(start as int).drop_last() =~= t.take(start as int - 1));
            assert(leaf(t.take(start as int)) == leaf(t.take(start as int - 1)) + seq![
                cs@[start - 1],
            ]);
            assert(leaf(t.take(start as int - 1)) + seq![cs@[start - 1]] + t.subrange(
                start as int,
                end as int,
            ) =~= leaf(t.take(start as int - 1)) + t.subrange(start as int - 1, end as int));
        }
        start = start - 1;
    }
    proof {
        if start > 0 {
            assert(t.take(start as int).last() == cs@[start - 1]);
            assert(leaf(t.take(start as int)) == Seq::<char>::empty());
        } else {
            assert(t.take(0) =~= Seq::<char>::empty());
        }
        assert(Seq::<char>::empty() + t.subrange(start as int, end as int) =~= t.subrange(
            start as int,
            end as int,
        ));
    }
    let mut r: Vec<char> = Vec::new();
    let mut i: usize = start;
    while i < end
        invariant
            start <= i <= end <= cs@.len(),
            cs@.len() <= usize::MAX,
            t == cs@.take(end as int),
            r@ == t.subrange(start as int, i as int),
        decreases end - i,
    {
        proof {
            assert(t[i as int] == cs@[i as int]);
            assert(t.subrange(start as int, i as int) + seq![t[i as int]] =~= t.subrange(
                start as int,
                i as int + 1,
            ));
        }
        r.push(cs[i]);
        i = i + 1;
    }
    proof {
        assert(r@ == t.subrange(start as int, end as int));
    }
    r
}

/// The project name: the one given, or else the destination path's
/// leaf name, with trailing separators and trailing `.` components
/// ignored. Fails when no name is given and the path has no usable
/// leaf (it is empty, all separators and `.` components, or ends in
/// the parent entry).
pub fn name_or_dir_name(name: Option<String>, path: &str) -> (r: Result<String, Error>)
    ensures
        match name_or_dir_name_spec(name, path@) {
            Result::Ok(l) => r is Ok && r->Ok_0@ == l,
            Result::Err(e) => r == Result::<String, Error>::Err(e),
        },
{
    match name {
        Option::Some(n) => Ok(n),
        Option::None => {
            let cs = crate::words::str_to_chars(path);
            let l = leaf_exec(&cs);
            let unusable = l.len() == 0 || (l.len() == 1 && l[0] == '.') || (l.len() == 2 && l[0]
                == '.' && l[1] == '.');
            if unusable {
                Err(Error::IoError)
            } else {
                Ok(crate::words::chars_to_string(&l))
            }
        },
    }
}

/// Where a rename of `path` to the new leaf `to` lands: beside the
/// original entry, in the same parent directory. Trailing separators
/// and trailing `.` components of `path` do not name the entry and are
/// ignored, as `Path::parent` ignores them.
pub open spec fn rename_destination_spec(path: Seq<char>, to: Seq<char>) -> Seq<char> {
    dir_prefix(trim_path_tail(path)) + to
}

/// The destination path for renaming the entry at `path` to the leaf
/// name `to`: the parent directory part of `path` is kept unchanged.
/// Trailing separators and trailing `.` components do not name the
/// entry and are ignored.
pub fn rename_destination(path: &str, to: &str) -> (r: String)
    ensures
        r@ == rename_destination_spec(path@, to@),
{
    let cs = crate::words::str_to_chars(path);
    let end = trim_end(&cs);
    let ghost t = cs@.take(end as int);
    let mut cut: usize = end;
    proof {
        assert(t.take(cut as int) =~= t);
    }
    while cut > 0 && cs[cut - 1] != '/'
        invariant
            cut <= end <= cs@.len(),
            cs@.len() <= usize::MAX,
            t == cs@.take(end as int),
            dir_prefix(t) == dir_prefix(t.take(cut as int)),
        decreases cut,
    {
        proof {
            assert(t.take(cut as int).last() == cs@[cut - 1]);
            assert(t.take(cut as int).drop_last() =~= t.take(cut as int - 1));
        }
        cut = cut - 1;
    }
    proof {
        if cut > 0 {
            assert(t.take(cut as int).last() == cs@[cut - 1]);
        }
        assert(dir_prefix(t) == t.take(cut as int));
        assert(t.take(cut as int) =~= cs@.take(cut as int));
    }
    let mut out: Vec<char> = Vec::new();
    let mut i: usize = 0;
    while i < cut
        invariant
            i <= cut <= cs@.len(),
            cs@.len() <= usize::MAX,
            out@ == cs@.take(cut as int).take(i as int),
        decreases cut - i,
    {
        proof {
            assert(cs@.take(cut as int).take(i as int).push(cs@[i as int]) =~= cs@.take(
                cut as int,
            ).take(i as int + 1));
        }
        out.push(cs[i]);
        i = i + 1;
    }
    proof {
        assert(cs@.take(cut as int).take(cut as int) =~= cs@.take(cut as int));
    }
    let ts = crate::words::str_to_chars(to);
    crate::words::push_word(&mut out, &ts);
    crate::words::chars_to_string(&out)
}

} // verus!
