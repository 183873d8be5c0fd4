//! How the program was invoked: the name it was called by, the role that
//! name selects, and the search path handed to a real opener.
use vstd::prelude::*;
use vstd::string::StrSliceExecFns;

verus! {

broadcast use vstd::seq_lib::group_seq_properties;

/// The role an invocation name selects.
#[derive(Clone, Copy, Debug, PartialEq, Eq, Structural)]
pub enum Invocation {
    /// Called by the name of a system URI opener: take one URI and act as it.
    OpenerAlias,
    /// Called by the name of an opener whose interface is not offered.
    Unsupported,
    /// Called by any other name: read a subcommand.
    Direct,
}

/// The position just past the last '/' of `s`, or 0 where there is none.
pub open spec fn name_start(s: Seq<char>) -> int
    decreases s.len(),
{
    if s.len() == 0 {
        0
    } else if s.last() == '/' {
        s.len() as int
    } else {
        name_start(s.drop_last())
    }
}

/// The last component of a path: what follows its last '/'.
pub open spec fn base_name(s: Seq<char>) -> Seq<char> {
    s.subrange(name_start(s), s.len() as int)
}

proof fn lemma_name_start_bounds(s: Seq<char>)
    ensures
        0 <= name_start(s) <= s.len(),
        forall|j: int| name_start(s) <= j < s.len() ==> s[j] != '/',
    decreases s.len(),
{
    if s.len() > 0 && s.last() != '/' {
        lemma_name_start_bounds(s.drop_last());
        assert forall|j: int| name_start(s) <= j < s.len() implies s[j] != '/' by {
            if j < s.len() - 1 {
                assert(s.drop_last()[j] == s[j]);
            }
        }
    }
}

/// The name a program was called by, from its first argument.
pub fn called_name(arg0: &str) -> (r: String)
    ensures
        r@ == base_name(arg0@),
{
    let n = arg0.unicode_len();
    let mut start: usize = 0;
    let mut i: usize = 0;
    while i < n
        invariant
            n == arg0@.len(),
            i <= n,
            start == name_start(arg0@.subrange(0, i as int)),
        decreases n - i,
    {
        let c = arg0.get_char(i);
        assert(arg0@.subrange(0, i + 1).drop_last() =~= arg0@.subrange(0, i as int));
        if c == '/' {
            start = i + 1;
        }
        i = i + 1;
    }
    assert(arg0@.subrange(0, n as int) =~= arg0@);
    proof {
        lemma_name_start_bounds(arg0@);
    }
    arg0.substring_char(start, n).to_owned()
}

/// Whether two strings hold the same characters.
fn same_text(a: &str, b: &str) -> (r: bool)
    ensures
        r == (a@ == b@),
{
    let n = a.unicode_len();
    if n != b.unicode_len() {
        return false;
    }
    let mut i: usize = 0;
    while i < n
        invariant
            n == a@.len(),
            n == b@.len(),
            i <= n,
            forall|j: int| 0 <= j < i ==> a@[j] == b@[j],
        decreases n - i,
    {
        if a.get_char(i) != b.get_char(i) {
            return false;
        }
        i = i + 1;
    }
    assert(a@ =~= b@);
    true
}

/// The role that `name` selects.
pub open spec fn invocation_of(name: Seq<char>) -> Invocation {
    if name == "xdg-open"@ || name == "gnome-open"@ || name == "kde-open"@ || name == "wslview"@ {
        Invocation::OpenerAlias
    } else if name == "gio"@ {
        Invocation::Unsupported
    } else {
        Invocation::Direct
    }
}

/// Decides the role from the name the program was called by.
pub fn classify_invocation(name: &str) -> (r: Invocation)
    ensures
        r == invocation_of(name@),
{
    if same_text(name, "xdg-open") || same_text(name, "gnome-open") || same_text(name, "kde-open")
        || same_text(name, "wslview") {
        Invocation::OpenerAlias
    } else if same_text(name, "gio") {
        Invocation::Unsupported
    } else {
        Invocation::Direct
    }
}

/// The search path without its first entry: what follows the first ':'.
/// A path of one entry has nothing left to search.
pub fn without_first_entry(path: &str) -> (r: Option<String>)
    ensures
        r is None <==> (forall|j: int| 0 <= j < path@.len() ==> path@[j] != ':'),
        r matches Some(t) ==> exists|i: int|
            0 <= i < path@.len() && path@[i] == ':' && (forall|j: int| 0 <= j < i ==> path@[j] != ':')
                && t@ == path@.subrange(i + 1, path@.len() as int),
{
    let n = path.unicode_len();
    let mut i: usize = 0;
    while i < n
        invariant
            n == path@.len(),
            i <= n,
            forall|j: int| 0 <= j < i ==> path@[j] != ':',
        decreases n - i,
    {
        if path.get_char(i) == ':' {
            return Some(path.substring_char(i + 1, n).to_owned());
        }
        i = i + 1;
    }
    None
}

} // verus!
