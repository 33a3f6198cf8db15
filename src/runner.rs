use vstd::prelude::*;
use crate::command::tokens_view;

verus! {

/// One external process call: the program to start and its arguments.
pub struct Invocation {
    pub program: String,
    pub args: Vec<String>,
}

/// The platform family, which decides how a command is handed to the system.
#[derive(Clone, Copy, Debug, PartialEq, Eq, Structural)]
pub enum Platform {
    /// Commands go through the system command interpreter.
    Windows,
    /// The first token is the program, the rest its arguments.
    Other,
}

/// The program and arguments that run `command` on `platform`; `None` when
/// there is no program to start.
pub open spec fn invocation_spec(command: Seq<Seq<char>>, platform: Platform) -> Option<
    (Seq<char>, Seq<Seq<char>>),
> {
    match platform {
        Platform::Windows => Some(("cmd"@, seq!["/C"@] + command)),
        Platform::Other => if command.len() == 0 {
            None
        } else {
            Some((command[0], command.skip(1)))
        },
    }
}

/// Copies the tokens of `v` from index `from` on.
fn copy_from(v: &Vec<String>, from: usize, out: &mut Vec<String>)
    requires
        from <= v@.len(),
    ensures
        tokens_view(final(out)@) == tokens_view(old(out)@) + tokens_view(v@).skip(from as int),
{
    let mut i: usize = from;
    while i < v.len()
        invariant
            from <= i <= v@.len(),
            tokens_view(out@) == tokens_view(old(out)@) + tokens_view(v@).subrange(
                from as int,
                i as int,
            ),
        decreases v@.len() - i,
    {
        let t = v[i].clone();
        let ghost prev = out@;
        out.push(t);
        assert(out@ =~= prev.push(t));
        assert(tokens_view(out@) =~= tokens_view(prev).push(v@[i as int]@));
        assert(tokens_view(out@) =~= tokens_view(old(out)@) + tokens_view(v@).subrange(
            from as int,
            i + 1,
        ));
        i = i + 1;
    }
    assert(tokens_view(v@).subrange(from as int, i as int) =~= tokens_view(v@).skip(from as int));
}

/// Turns a command into the process call that runs it on `platform`.
pub fn platform_invocation(command: &Vec<String>, platform: Platform) -> (r: Option<Invocation>)
    ensures
        match (r, invocation_spec(tokens_view(command@), platform)) {
            (None, None) => true,
            (Some(inv), Some((p, a))) => inv.program@ == p && tokens_view(inv.args@) == a,
            _ => false,
        },
{
    match platform {
        Platform::Windows => {
            let mut args = vec![String::from_str("/C")];
            copy_from(command, 0, &mut args);
            assert(tokens_view(command@).skip(0) =~= tokens_view(command@));
            assert(tokens_view(args@) =~= seq!["/C"@] + tokens_view(command@));
            Some(Invocation { program: String::from_str("cmd"), args })
        },
        Platform::Other => {
            if command.len() == 0 {
                None
            } else {
                let program = command[0].clone();
                let mut args: Vec<String> = Vec::new();
                copy_from(command, 1, &mut args);
                assert(tokens_view(args@) =~= tokens_view(command@).skip(1));
                Some(Invocation { program, args })
            }
        },
    }
}

} // verus!
