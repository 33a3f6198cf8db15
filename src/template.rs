use vstd::prelude::*;

verus! {

/// The family of scaffolding tool that a project is created with.
#[derive(Clone, Copy, Debug, PartialEq, Eq, Structural)]
pub enum TemplateKind {
    Vite,
    Next,
}

/// The spelling of each kind on the command line.
pub open spec fn template_name(k: TemplateKind) -> Seq<char> {
    match k {
        TemplateKind::Vite => "vite"@,
        TemplateKind::Next => "next"@,
    }
}

impl TemplateKind {
    /// The command-line spelling of this kind.
    pub fn name(&self) -> (r: String)
        ensures
            r@ == template_name(*self),
    {
        match self {
            TemplateKind::Vite => String::from_str("vite"),
            TemplateKind::Next => String::from_str("next"),
        }
    }
}

/// Selects a template kind by its exact, case-sensitive name; any other
/// spelling is refused.
pub fn parse_template(s: &str) -> (r: Option<TemplateKind>)
    ensures
        r matches Some(k) ==> template_name(k) == s@,
        r is None ==> s@ != "vite"@ && s@ != "next"@,
{
    let n = s.unicode_len();
    if n != 4 {
        proof {
            reveal_strlit("vite");
            reveal_strlit("next");
        }
        return None;
    }
    let c0 = s.get_char(0);
    let c1 = s.get_char(1);
    let c2 = s.get_char(2);
    let c3 = s.get_char(3);
    proof {
        reveal_strlit("vite");
        reveal_strlit("next");
    }
    if c0 == 'v' && c1 == 'i' && c2 == 't' && c3 == 'e' {
        assert(s@ =~= "vite"@);
        Some(TemplateKind::Vite)
    } else if c0 == 'n' && c1 == 'e' && c2 == 'x' && c3 == 't' {
        assert(s@ =~= "next"@);
        Some(TemplateKind::Next)
    } else {
        None
    }
}

} // verus!
