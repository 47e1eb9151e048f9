//! Which files and directories a project scan looks at.
use vstd::prelude::*;
use crate::checks::layering::{components_of, path_components, rows};
use crate::text::str_eq;

verus! {

/// Directories never descended into: VCS metadata, virtual environments,
/// caches and build output.
pub open spec fn skipped_dir_names() -> Seq<Seq<char>> {
    seq![
        ".git"@,
        ".venv"@,
        "venv"@,
        "__pycache__"@,
        "node_modules"@,
        "target"@,
        ".mypy_cache"@,
        ".pytest_cache"@,
        ".ruff_cache"@,
    ]
}

/// Whether a directory with this name is skipped.
pub fn is_skipped_dir(name: &str) -> (r: bool)
    ensures
        r == skipped_dir_names().contains(name@),
{
    let r = str_eq(name, ".git") || str_eq(name, ".venv") || str_eq(name, "venv") || str_eq(name, "__pycache__")
        || str_eq(name, "node_modules") || str_eq(name, "target") || str_eq(name, ".mypy_cache") || str_eq(
        name,
        ".pytest_cache",
    ) || str_eq(name, ".ruff_cache");
    proof {
        let s = skipped_dir_names();
        assert(s[0] == ".git"@ && s[1] == ".venv"@ && s[2] == "venv"@ && s[3] == "__pycache__"@ && s[4]
            == "node_modules"@ && s[5] == "target"@ && s[6] == ".mypy_cache"@ && s[7] == ".pytest_cache"@ && s[8]
            == ".ruff_cache"@);
        if r {
            assert(s.contains(name@));
        } else {
            assert forall|k: int| 0 <= k < s.len() implies s[k] != name@ by {
                if k == 0 {} else if k == 1 {} else if k == 2 {} else if k == 3 {} else if k == 4 {} else if k == 5 {} else if k == 6 {} else if k == 7 {} else {}
            }
        }
    }
    r
}

/// The file name of a path: its last component, unless that is the root,
/// `.` or `..`.
pub open spec fn file_name_of(p: Seq<char>) -> Option<Seq<char>> {
    let cs = path_components(p);
    if cs.len() == 0 {
        None
    } else {
        let last = cs.last();
        if last == seq!['/'] || last == seq!['.'] || last == seq!['.', '.'] {
            None
        } else {
            Some(last)
        }
    }
}

/// The position of the last `.` in `s`, if any.
pub open spec fn last_dot(s: Seq<char>) -> Option<int>
    decreases s.len(),
{
    if s.len() == 0 {
        None
    } else if s.last() == '.' {
        Some(s.len() - 1)
    } else {
        last_dot(s.drop_last())
    }
}

/// The extension of a file name: the text after its last `.`, when some
/// text precedes that dot (`.py` alone has none).
pub open spec fn extension_of(name: Seq<char>) -> Option<Seq<char>> {
    match last_dot(name) {
        Some(k) => if k > 0 {
            Some(name.subrange(k + 1, name.len() as int))
        } else {
            None
        },
        None => None,
    }
}

/// A path to a Python source file: its file name has the extension `py`.
pub open spec fn python_file(p: Seq<char>) -> bool {
    file_name_of(p) matches Some(n) && extension_of(n) == Some(seq!['p', 'y'])
}

/// Whether the path names a Python source file (`.py` extension).
pub fn is_python_file(path: &str) -> (r: bool)
    ensures
        r == python_file(path@),
{
    let cs = components_of(path);
    if cs.len() == 0 {
        return false;
    }
    let last = &cs[cs.len() - 1];
    proof {
        assert(rows(cs@).last() == last@);
    }
    let is_root = last.len() == 1 && last[0] == '/';
    let is_dot = last.len() == 1 && last[0] == '.';
    let is_dotdot = last.len() == 2 && last[0] == '.' && last[1] == '.';
    proof {
        if last@.len() == 1 {
            assert(is_root == (last@ =~= seq!['/']));
            assert(is_dot == (last@ =~= seq!['.']));
        } else {
            assert(last@ != seq!['/'] && last@ != seq!['.']);
        }
        if last@.len() == 2 {
            assert(is_dotdot == (last@ =~= seq!['.', '.']));
        } else {
            assert(last@ != seq!['.', '.']);
        }
    }
    if is_root || is_dot || is_dotdot {
        return false;
    }
    let mut k = last.len();
    proof {
        assert(last@.take(k as int) =~= last@);
    }
    while k > 0 && last[k - 1] != '.'
        invariant
            k <= last@.len(),
            last_dot(last@) == last_dot(last@.take(k as int)),
        decreases k,
    {
        proof {
            assert(last@.take(k as int).drop_last() =~= last@.take(k - 1));
        }
        k = k - 1;
    }
    if k == 0 {
        proof {
            assert(last@.take(0) =~= Seq::<char>::empty());
        }
        return false;
    }
    proof {
        assert(last@.take(k as int).last() == '.');
    }
    let dot = k - 1;
    if dot == 0 {
        return false;
    }
    let n = last.len();
    let r = n - k == 2 && last[k] == 'p' && last[k + 1] == 'y';
    proof {
        let ext = last@.subrange(k as int, n as int);
        if n - k == 2 {
            assert(ext[0] == last@[k as int] && ext[1] == last@[k + 1]);
            assert(r == (ext =~= seq!['p', 'y']));
        } else {
            assert(ext.len() != 2);
            assert(ext != seq!['p', 'y']);
        }
    }
    r
}

} // verus!
