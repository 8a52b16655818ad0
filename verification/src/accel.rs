//! Keyboard accelerator strings: validity and platform resolution.
//!
//! An accelerator is written as one or more `+`-separated, nonempty parts,
//! such as `CmdOrCtrl+N` or `Shift+Alt+F`.  The leading part `CmdOrCtrl`
//! stands for the platform's primary modifier and is resolved to `Cmd` on the
//! Mac family and to `Ctrl` elsewhere.

use vstd::prelude::*;
use vstd::string::StrSliceExecFns;
use vstd::string::StringExecFns;

verus! {

/// The platform family the menu is rendered on, injected by the host.
#[derive(Clone, Copy, Debug, PartialEq, Eq)]
pub enum Platform {
    MacOs,
    Windows,
    Linux,
}

/// An accelerator string is well formed when it is nonempty and its
/// `+`-separated parts are all nonempty: it neither starts nor ends with
/// `+`, and no two `+` are adjacent.
pub open spec fn valid_accelerator(s: Seq<char>) -> bool {
    &&& s.len() > 0
    &&& s[0] != '+'
    &&& s[s.len() - 1] != '+'
    &&& forall|i: int| 0 < i < s.len() ==> !(#[trigger] s[i] == '+' && s[i - 1] == '+')
}

/// Checks that an accelerator string is well formed.
pub fn accelerator_ok(s: &str) -> (b: bool)
    ensures
        b == valid_accelerator(s@),
{
    let n = s.unicode_len();
    if n == 0 {
        return false;
    }
    if s.get_char(0) == '+' {
        return false;
    }
    if s.get_char(n - 1) == '+' {
        return false;
    }
    let mut i: usize = 1;
    while i < n
        invariant
            1 <= i <= n,
            n == s@.len(),
            forall|k: int| 0 < k < i ==> !(#[trigger] s@[k] == '+' && s@[k - 1] == '+'),
        decreases n - i,
    {
        if s.get_char(i) == '+' && s.get_char(i - 1) == '+' {
            return false;
        }
        i = i + 1;
    }
    true
}

/// The platform's primary modifier key name.
pub open spec fn primary_modifier(p: Platform) -> Seq<char> {
    if p is MacOs {
        "Cmd"@
    } else {
        "Ctrl"@
    }
}

/// The meaning of an accelerator string on a given platform: a leading
/// `CmdOrCtrl+` resolves to the platform's primary modifier; any other
/// string stands for itself.
pub open spec fn resolved_accelerator(s: Seq<char>, p: Platform) -> Seq<char> {
    if s.len() >= 10 && s.subrange(0, 10) == "CmdOrCtrl+"@ {
        primary_modifier(p) + "+"@ + s.skip(10)
    } else {
        s
    }
}

/// Does the string start with the ten characters `CmdOrCtrl+`?
fn starts_with_cmd_or_ctrl(s: &str) -> (b: bool)
    ensures
        b == (s@.len() >= 10 && s@.subrange(0, 10) == "CmdOrCtrl+"@),
{
    proof {
        reveal_strlit("CmdOrCtrl+");
    }
    let n = s.unicode_len();
    if n < 10 {
        return false;
    }
    let mut i: usize = 0;
    while i < 10
        invariant
            0 <= i <= 10,
            n == s@.len(),
            n >= 10,
            forall|k: int| 0 <= k < i ==> s@[k] == "CmdOrCtrl+"@[k],
        decreases 10 - i,
    {
        proof {
            reveal_strlit("CmdOrCtrl+");
        }
        let c = s.get_char(i);
        let e = "CmdOrCtrl+".get_char(i);
        if c != e {
            proof {
                assert(s@.subrange(0, 10) != "CmdOrCtrl+"@) by {
                    assert(s@.subrange(0, 10)[i as int] != "CmdOrCtrl+"@[i as int]);
                }
            }
            return false;
        }
        i = i + 1;
    }
    proof {
        assert(s@.subrange(0, 10) =~= "CmdOrCtrl+"@);
    }
    true
}

/// Resolves the platform-dependent modifier of an accelerator string:
/// `CmdOrCtrl+N` becomes `Cmd+N` on the Mac family and `Ctrl+N` elsewhere;
/// a string without the `CmdOrCtrl+` prefix is returned unchanged.
pub fn resolve_accelerator(s: &str, p: Platform) -> (r: String)
    ensures
        r@ == resolved_accelerator(s@, p),
{
    if starts_with_cmd_or_ctrl(s) {
        let n = s.unicode_len();
        let rest = s.substring_char(10, n);
        let mut out = (match p {
            Platform::MacOs => "Cmd+",
            Platform::Windows => "Ctrl+",
            Platform::Linux => "Ctrl+",
        }).to_owned();
        out.append(rest);
        proof {
            reveal_strlit("Cmd+");
            reveal_strlit("Ctrl+");
            reveal_strlit("Cmd");
            reveal_strlit("Ctrl");
            reveal_strlit("+");
            if p is MacOs {
                assert(out@ =~= "Cmd"@ + "+"@ + s@.skip(10));
            } else {
                assert(out@ =~= "Ctrl"@ + "+"@ + s@.skip(10));
            }
        }
        out
    } else {
        s.to_owned()
    }
}

} // verus!
