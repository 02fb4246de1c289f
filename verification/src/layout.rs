use vstd::prelude::*;
use crate::config::Github;

verus! {

/// The separator between the components of a path.
pub open spec fn separator() -> Seq<char> {
    seq!['/']
}

/// `name` placed under the directory `base`.
///
/// An absolute `name` stands for itself. Otherwise the two are written one
/// after the other, with a separator between them unless `base` is empty or
/// already ends in one.
pub open spec fn joined(base: Seq<char>, name: Seq<char>) -> Seq<char> {
    if name.len() > 0 && name[0] == '/' {
        name
    } else if base.len() == 0 || base[base.len() - 1] == '/' {
        base + name
    } else {
        base + separator() + name
    }
}

/// The address from which the repository `name` of `owner` is fetched:
/// `git@<domain>:<owner>/<name>.git`.
pub open spec fn remote_url_of(domain: Seq<char>, owner: Seq<char>, name: Seq<char>) -> Seq<char> {
    seq!['g', 'i', 't', '@'] + domain + seq![':'] + owner + seq!['/'] + name + seq![
        '.',
        'g',
        'i',
        't',
    ]
}

/// The private key used for every fetch: `<home>/.ssh/id_rsa`.
pub open spec fn ssh_key_path_of(home: Seq<char>) -> Seq<char> {
    home + seq!['/', '.', 's', 's', 'h', '/', 'i', 'd', '_', 'r', 's', 'a']
}

/// Where the working copy of the repository `name` lives.
pub fn repository_path(working_directory: &str, name: &str) -> (path: String)
    ensures
        path@ == joined(working_directory@, name@),
{
    let base_len: usize = working_directory.unicode_len();
    let name_len: usize = name.unicode_len();
    if name_len > 0 && name.get_char(0) == '/' {
        return String::from_str(name);
    }
    let mut path = String::from_str(working_directory);
    if base_len > 0 && working_directory.get_char(base_len - 1) != '/' {
        proof {
            reveal_strlit("/");
        }
        path.append("/");
        assert(path@ =~= working_directory@ + separator());
    }
    path.append(name);
    path
}

/// The address from which the repository `name` is cloned.
pub fn remote_url(github: &Github, name: &str) -> (url: String)
    ensures
        url@ == remote_url_of(github.domain@, github.owner@, name@),
{
    proof {
        reveal_strlit("git@");
        reveal_strlit(":");
        reveal_strlit("/");
        reveal_strlit(".git");
    }
    let mut url = String::from_str("git@");
    assert(url@ =~= seq!['g', 'i', 't', '@']);
    url.append(github.domain.as_str());
    url.append(":");
    assert(":"@ =~= seq![':']);
    url.append(github.owner.as_str());
    url.append("/");
    assert("/"@ =~= seq!['/']);
    url.append(name);
    url.append(".git");
    assert(".git"@ =~= seq!['.', 'g', 'i', 't']);
    url
}

/// The private key of the user whose home directory is `home`.
pub fn ssh_key_path(home: &str) -> (path: String)
    ensures
        path@ == ssh_key_path_of(home@),
{
    proof {
        reveal_strlit("/.ssh/id_rsa");
    }
    let mut path = String::from_str(home);
    path.append("/.ssh/id_rsa");
    assert("/.ssh/id_rsa"@ =~= seq!['/', '.', 's', 's', 'h', '/', 'i', 'd', '_', 'r', 's', 'a']);
    path
}

/// Whether `path` starts at the root.
pub open spec fn is_rooted(path: Seq<char>) -> bool {
    path.len() > 0 && path[0] == '/'
}

/// Whether `segment`, a stretch of a path between two separators, counts as a
/// component of it. An empty one does not; nor does a `.`, unless the path
/// starts with it. `any` says that a component came before, `rooted` that
/// the path starts at the root.
pub open spec fn counts(segment: Seq<char>, any: bool, rooted: bool) -> bool {
    segment.len() > 0 && !(segment.len() == 1 && segment[0] == '.' && (any || rooted))
}

/// The components written so far and whether there are any, once `segment`
/// has ended: a segment that counts is written behind `out`, after a
/// separator where a component came before.
pub open spec fn closed(out: Seq<char>, any: bool, segment: Seq<char>, rooted: bool) -> (
    Seq<char>,
    bool,
) {
    if counts(segment, any, rooted) {
        (
            if any {
                out + separator() + segment
            } else {
                out + segment
            },
            true,
        )
    } else {
        (out, any)
    }
}

/// Where reading `path` stands after its first `n` characters: the components
/// written so far, whether there are any, and where the segment begins that
/// has not ended yet.
pub open spec fn read_upto(path: Seq<char>, n: nat) -> (Seq<char>, bool, int)
    decreases n,
{
    if n == 0 {
        (
            if is_rooted(path) {
                separator()
            } else {
                Seq::empty()
            },
            false,
            0,
        )
    } else {
        let before = read_upto(path, (n - 1) as nat);
        if path[n - 1] == '/' {
            let after = closed(before.0, before.1, path.subrange(before.2, n - 1), is_rooted(path));
            (after.0, after.1, n as int)
        } else {
            before
        }
    }
}

/// `path` written in one way: its components with one separator between
/// them, behind one more where it starts at the root. Repeated separators,
/// one at the end, and every `.` but one at the start leave no trace.
pub open spec fn normal(path: Seq<char>) -> Seq<char> {
    let read = read_upto(path, path.len());
    closed(read.0, read.1, path.subrange(read.2, path.len() as int), is_rooted(path)).0
}

/// Two texts name the same path: they have the same components, and both
/// start at the root or neither does.
pub open spec fn same_path(a: Seq<char>, b: Seq<char>) -> bool {
    normal(a) == normal(b)
}

/// The private key of the user, who may have no home directory.
pub fn key_path_under(home: Option<&str>) -> (path: Option<String>)
    ensures
        match path {
            Some(key) => home matches Some(directory) && key@ == ssh_key_path_of(directory@),
            None => home is None,
        },
{
    match home {
        Some(directory) => Some(ssh_key_path(directory)),
        None => None,
    }
}

fn close(out: &mut String, any: bool, segment: &str, rooted: bool) -> (some: bool)
    ensures
        (final(out)@, some) == closed(old(out)@, any, segment@, rooted),
{
    let length: usize = segment.unicode_len();
    if length == 0 || (length == 1 && segment.get_char(0) == '.' && (any || rooted)) {
        any
    } else {
        if any {
            proof {
                reveal_strlit("/");
            }
            out.append("/");
            assert(out@ =~= old(out)@ + separator());
        }
        out.append(segment);
        true
    }
}

/// `path` written in one way, so that two texts name the same path exactly
/// where this gives the same for both.
pub fn normal_path(path: &str) -> (out: String)
    ensures
        out@ == normal(path@),
{
    let length: usize = path.unicode_len();
    let rooted = length > 0 && path.get_char(0) == '/';
    let mut out = String::new();
    if rooted {
        proof {
            reveal_strlit("/");
        }
        out.append("/");
        assert(out@ =~= separator());
    }
    let mut any = false;
    let mut start: usize = 0;
    let mut i: usize = 0;
    while i < length
        invariant
            i <= length,
            length == path@.len(),
            start <= i,
            rooted == is_rooted(path@),
            (out@, any, start as int) == read_upto(path@, i as nat),
        decreases length - i,
    {
        if path.get_char(i) == '/' {
            any = close(&mut out, any, path.substring_char(start, i), rooted);
            start = i + 1;
        }
        i += 1;
    }
    close(&mut out, any, path.substring_char(start, length), rooted);
    out
}

/// Whether the texts `a` and `b` name the same path.
pub fn names_same_path(a: &str, b: &str) -> (same: bool)
    ensures
        same == same_path(a@, b@),
{
    normal_path(a) == normal_path(b)
}

} // verus!
