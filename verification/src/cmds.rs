//! Console commands, registered by name and run with a list of arguments.

use vstd::prelude::*;
use vstd::hash_map::StringHashMap;

verus! {

/// What adding `cmd` under `name` does to the registry `cmds`: the registry
/// is unchanged and the call fails when the name is taken; otherwise the
/// command is added.
pub open spec fn add_result<F>(cmds: Map<Seq<char>, F>, name: Seq<char>, cmd: F) -> (
    Map<Seq<char>, F>,
    Result<(), ()>,
) {
    if cmds.contains_key(name) {
        (cmds, Err(()))
    } else {
        (cmds.insert(name, cmd), Ok(()))
    }
}

/// Stores console commands.
///
/// A command is anything that can be called with the argument list of a
/// command line; a registry holding commands of different kinds uses a boxed
/// closure type such as `Box<dyn Fn(Vec<&str>)>`.
#[verifier::reject_recursive_types(F)]
pub struct CmdRegistry<F> {
    cmds: StringHashMap<F>,
}

impl<F> View for CmdRegistry<F> {
    type V = Map<Seq<char>, F>;

    closed spec fn view(&self) -> Map<Seq<char>, F> {
        self.cmds@
    }
}

impl<F: Fn(Vec<&str>)> CmdRegistry<F> {
    /// An empty registry.
    pub fn new() -> (reg: CmdRegistry<F>)
        ensures
            reg@ == Map::<Seq<char>, F>::empty(),
    {
        CmdRegistry { cmds: StringHashMap::new() }
    }

    /// Registers a new command.
    ///
    /// Returns an error, leaving the registry unchanged, if a command with the
    /// specified name already exists.
    pub fn add_cmd(&mut self, name: &str, cmd: F) -> (res: Result<(), ()>)
        ensures
            (final(self)@, res) == add_result(old(self)@, name@, cmd),
    {
        if self.cmds.contains_key(name) {
            return Err(());
        }
        self.cmds.insert(name.to_owned(), cmd);
        assert(self.cmds@ == old(self)@.insert(name@, cmd));
        Ok(())
    }

    /// Executes a command.
    ///
    /// Returns an error if no command with the specified name exists;
    /// otherwise calls it with `args`.
    pub fn exec_cmd(&mut self, name: &str, args: Vec<&str>) -> (res: Result<(), ()>)
        requires
            old(self)@.contains_key(name@) ==> call_requires(old(self)@[name@], (args,)),
        ensures
            final(self)@ == old(self)@,
            res is Ok <==> old(self)@.contains_key(name@),
            res is Ok ==> call_ensures(old(self)@[name@], (args,), ()),
    {
        match self.cmds.get(name) {
            Some(cmd) => cmd(args),
            None => return Err(()),
        }
        Ok(())
    }
}

/// A command can be added under a name only once: the first addition
/// succeeds, and after it the name runs that command, while adding under the
/// same name again fails and leaves the registry as it is. The commands under
/// other names are untouched.
pub proof fn add_cmd_once<F>(cmds: Map<Seq<char>, F>, name: Seq<char>, first: F, second: F)
    requires
        !cmds.contains_key(name),
    ensures
        ({
            let (after, res) = add_result(cmds, name, first);
            &&& res is Ok
            &&& after.contains_key(name)
            &&& after[name] == first
            &&& add_result(after, name, second) == (after, Err::<(), ()>(()))
            &&& forall|other: Seq<char>|
                other != name ==> (#[trigger] after.contains_key(other) == cmds.contains_key(other)
                    && (cmds.contains_key(other) ==> after[other] == cmds[other]))
        }),
{
}

} // verus!
