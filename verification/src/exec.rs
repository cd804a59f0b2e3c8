//! Running external processes from the program.
use vstd::prelude::*;

use crate::model::{Cmd, Command, Msg};

verus! {

/// ExecMsg asks the program to run an external process, releasing the
/// terminal while it runs.
#[derive(Debug, Clone, PartialEq, Eq)]
pub struct ExecMsg {
    /// Program to run.
    pub cmd: String,
    /// Arguments of the program.
    pub args: Vec<String>,
}

/// The views of a sequence of strings.
pub open spec fn string_views(v: Seq<String>) -> Seq<Seq<char>> {
    v.map_values(|s: String| s@)
}

/// The views of a sequence of string slices.
pub open spec fn str_views(v: Seq<&str>) -> Seq<Seq<char>> {
    v.map_values(|s: &str| s@)
}

/// ExecProcess produces a command that runs the program `cmd` with `args`,
/// pausing the event loop while it runs.
pub fn exec_process<M, W>(cmd: &str, args: &[&str]) -> (c: Cmd<M, W>)
    ensures
        c matches Some(Command::Emit(Msg::Exec(m))) && m.cmd@ == cmd@ && string_views(m.args@)
            == str_views(args@),
{
    let mut owned: Vec<String> = Vec::new();
    let mut i: usize = 0;
    while i < args.len()
        invariant
            i <= args@.len(),
            owned@.len() == i,
            string_views(owned@) == str_views(args@.take(i as int)),
        decreases args@.len() - i,
    {
        let arg: &str = args[i];
        let a = arg.to_owned();
        let ghost before = owned@;
        owned.push(a);
        assert forall|j: int| 0 <= j < i + 1 implies #[trigger] string_views(owned@)[j] == str_views(args@.take(i + 1))[j] by {
            if j < i {
                assert(string_views(before)[j] == str_views(args@.take(i as int))[j]);
                assert(owned@[j] == before[j]);
                assert(args@.take(i + 1)[j] == args@.take(i as int)[j]);
            } else {
                assert(owned@[j]@ == arg@);
                assert(args@.take(i + 1)[j] == arg);
            }
        }
        assert(string_views(owned@) =~= str_views(args@.take(i + 1)));
        i = i + 1;
    }
    assert(args@.take(args@.len() as int) =~= args@);
    assert(string_views(owned@) == str_views(args@));
    Some(Command::Emit(Msg::Exec(ExecMsg { cmd: cmd.to_owned(), args: owned })))
}

} // verus!
