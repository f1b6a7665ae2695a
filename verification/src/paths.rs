//! Paths are held as text. Joining and `~` expansion follow the Unix rules of
//! `std::path`; what the file system or the environment decides comes in
//! through small trusted items.

use vstd::prelude::*;

verus! {

/// `base` joined with `rest` as `PathBuf::join` does on Unix: an absolute
/// `rest` replaces `base`; otherwise a `/` separates them unless `base` is
/// empty or already ends in `/`.
pub open spec fn spec_path_join(base: Seq<char>, rest: Seq<char>) -> Seq<char> {
    if rest.len() > 0 && rest[0] == '/' {
        rest
    } else if base.len() == 0 || base.last() == '/' {
        base + rest
    } else {
        base + seq!['/'] + rest
    }
}

/// `~` alone becomes the home directory (or `.` without one); `~/rest`
/// becomes the home directory joined with `rest` (unchanged without one);
/// any other path is kept.
pub open spec fn spec_expand_tilde(path: Seq<char>, home: Option<Seq<char>>) -> Seq<char> {
    if path =~= seq!['~'] {
        match home {
            Some(h) => h,
            None => seq!['.'],
        }
    } else if path.len() >= 2 && path[0] == '~' && path[1] == '/' {
        match home {
            Some(h) => spec_path_join(h, path.skip(2)),
            None => path,
        }
    } else {
        path
    }
}

/// What a home-directory lookup can give: nothing, or a non-empty path.
pub open spec fn valid_home(home: Option<Seq<char>>) -> bool {
    home matches Some(h) ==> h.len() > 0
}

/// `out` is `inp` with `~` expanded against some home-directory lookup.
pub open spec fn is_expansion_of(out: Seq<char>, inp: Seq<char>) -> bool {
    exists|home: Option<Seq<char>>| valid_home(home) && out == #[trigger] spec_expand_tilde(inp, home)
}

pub open spec fn opt_view(o: Option<String>) -> Option<Seq<char>> {
    match o {
        Some(s) => Some(s@),
        None => None,
    }
}

/// Joins two paths by the Unix rule of `PathBuf::join`.
pub fn path_join(base: &str, rest: &str) -> (r: String)
    ensures
        r@ == spec_path_join(base@, rest@),
{
    let n = rest.unicode_len();
    if n > 0 && rest.get_char(0) == '/' {
        return String::from_str(rest);
    }
    let m = base.unicode_len();
    let mut out = String::from_str(base);
    if m > 0 && base.get_char(m - 1) != '/' {
        let sep = "/";
        proof {
            reveal_strlit("/");
        }
        out.append(sep);
    }
    out.append(rest);
    out
}

/// Expands a leading `~` against the given home directory.
pub fn expand_tilde_with(path: &str, home: &Option<String>) -> (r: String)
    ensures
        r@ == spec_expand_tilde(path@, opt_view(*home)),
{
    let n = path.unicode_len();
    if n == 1 && path.get_char(0) == '~' {
        assert(path@ =~= seq!['~']);
        return match home {
            Some(h) => h.clone(),
            None => {
                let dot = ".";
                proof {
                    reveal_strlit(".");
                }
                assert(dot@ =~= seq!['.']);
                String::from_str(dot)
            },
        };
    }
    assert(!(path@ =~= seq!['~']));
    if n >= 2 && path.get_char(0) == '~' && path.get_char(1) == '/' {
        match home {
            Some(h) => {
                let rest = path.substring_char(2, n);
                assert(rest@ =~= path@.skip(2));
                path_join(h.as_str(), rest)
            },
            None => String::from_str(path),
        }
    } else {
        String::from_str(path)
    }
}

/// Looks up the user's home directory with `dirs::home_dir`. Its source
/// gives no path for an empty `$HOME` or an empty password-file entry, so a
/// result that is there is non-empty; which directory it is depends on the
/// environment and is not stated.
#[verifier::external_body]
pub(crate) fn home_dir() -> (r: Option<String>)
    ensures
        valid_home(opt_view(r)),
{
    dirs::home_dir().map(|p| p.to_string_lossy().into_owned())
}

/// Expands a leading `~` against the user's home directory.
pub fn expand_tilde(path: &str) -> (r: String)
    ensures
        is_expansion_of(r@, path@),
        !(path@ =~= seq!['~']) && !(path@.len() >= 2 && path@[0] == '~' && path@[1] == '/')
            ==> r@ == path@,
{
    let home = home_dir();
    let r = expand_tilde_with(path, &home);
    assert(valid_home(opt_view(home)) && r@ == spec_expand_tilde(path@, opt_view(home)));
    r
}


/// What `~` expansion does, character by character: with a home `h`, `~`
/// becomes `h` and `~/rest` becomes `h`, a `/` (unless `h` already ends in
/// one) and `rest` (an absolute `rest` standing alone); without a home, `~`
/// becomes `.` and `~/rest` is kept; a path that starts otherwise, or `~`
/// followed by anything but `/`, is kept.
pub proof fn lemma_expand_tilde_cases(path: Seq<char>, home: Option<Seq<char>>)
    ensures
        path.len() == 0 || path[0] != '~' ==> spec_expand_tilde(path, home) == path,
        path.len() >= 2 && path[0] == '~' && path[1] != '/' ==> spec_expand_tilde(path, home) == path,
        path =~= seq!['~'] ==> spec_expand_tilde(path, home) == match home {
            Some(h) => h,
            None => seq!['.'],
        },
        path.len() >= 2 && path[0] == '~' && path[1] == '/' ==> spec_expand_tilde(path, home)
            == match home {
            None => path,
            Some(h) => {
                let rest = path.subrange(2, path.len() as int);
                if rest.len() > 0 && rest[0] == '/' {
                    rest
                } else if h.len() > 0 && h[h.len() - 1] != '/' {
                    h + seq!['/'] + rest
                } else {
                    h + rest
                }
            },
        },
{
    if path.len() >= 2 && path[0] == '~' {
        assert(!(path =~= seq!['~']));
    }
    if path.len() == 0 || path[0] != '~' {
        assert(!(path =~= seq!['~']));
    }
}

/// Expanding `~` a second time changes nothing, for a home directory that
/// does not itself start with `~`.
pub proof fn lemma_expand_tilde_idempotent(path: Seq<char>, home: Option<Seq<char>>)
    requires
        valid_home(home),
        home matches Some(h) ==> h[0] != '~',
    ensures
        spec_expand_tilde(spec_expand_tilde(path, home), home) == spec_expand_tilde(path, home),
{
    let r = spec_expand_tilde(path, home);
    if path =~= seq!['~'] {
        if let Some(h) = home {
            assert(r[0] != '~');
            assert(!(r =~= seq!['~']));
        } else {
            assert(r =~= seq!['.']);
            assert(r[0] == '.');
        }
    } else if path.len() >= 2 && path[0] == '~' && path[1] == '/' {
        if let Some(h) = home {
            let rest = path.skip(2);
            if rest.len() > 0 && rest[0] == '/' {
                assert(r[0] == '/');
            } else {
                assert(r[0] == h[0]);
            }
            assert(!(r =~= seq!['~']));
        }
    }
}

/// The parent of a path, as `std::path::Path::parent` computes it.
pub uninterp spec fn path_parent_of(path: Seq<char>) -> Option<Seq<char>>;

/// The extension of a path's final component, as
/// `std::path::Path::extension` computes it.
pub uninterp spec fn path_extension_of(path: Seq<char>) -> Option<Seq<char>>;

/// `std::path::Path::parent` on the path; its result is named
/// [`path_parent_of`] and nothing more is stated of it.
#[verifier::external_body]
pub fn path_parent(path: &str) -> (r: Option<String>)
    ensures
        opt_view(r) == path_parent_of(path@),
{
    std::path::Path::new(path).parent().map(|p| p.to_string_lossy().into_owned())
}

/// `std::path::Path::extension` on the path; its result is named
/// [`path_extension_of`] and nothing more is stated of it.
#[verifier::external_body]
pub fn path_extension(path: &str) -> (r: Option<String>)
    ensures
        opt_view(r) == path_extension_of(path@),
{
    std::path::Path::new(path).extension().map(|e| e.to_string_lossy().into_owned())
}

} // verus!
