//! Configuration variables ("cvars"), registered by name.

use vstd::prelude::*;
use vstd::hash_map::StringHashMap;

verus! {

/// What a registered cvar holds.
pub struct CvarState {
    /// Value of this variable.
    pub val: Seq<char>,
    /// Whether this variable should be archived in `vars.rc`.
    pub archive: bool,
    /// Whether updating this variable must also update serverinfo/userinfo.
    pub info: bool,
    /// The default value of this variable.
    pub default: Seq<char>,
}

impl CvarState {
    /// A freshly registered cvar: its value is its default.
    pub open spec fn fresh(default: Seq<char>, archive: bool, info: bool) -> CvarState {
        CvarState { val: default, archive, info, default }
    }
}

/// What registering `name` with `cvar` does to the registry `cvars`: the
/// registry is unchanged and the call fails when the name is taken;
/// otherwise the name is added.
pub open spec fn register_result(
    cvars: Map<Seq<char>, CvarState>,
    name: Seq<char>,
    cvar: CvarState,
) -> (Map<Seq<char>, CvarState>, Result<(), ()>) {
    if cvars.contains_key(name) {
        (cvars, Err(()))
    } else {
        (cvars.insert(name, cvar), Ok(()))
    }
}

/// A configuration variable.
///
/// Cvars are the primary method of configuring the game.
struct Cvar {
    val: String,
    archive: bool,
    info: bool,
    default: String,
}

impl View for Cvar {
    type V = CvarState;

    closed spec fn view(&self) -> CvarState {
        CvarState { val: self.val@, archive: self.archive, info: self.info, default: self.default@ }
    }
}

/// The registered configuration variables, by name.
pub struct CvarRegistry {
    cvars: StringHashMap<Cvar>,
}

impl View for CvarRegistry {
    type V = Map<Seq<char>, CvarState>;

    closed spec fn view(&self) -> Map<Seq<char>, CvarState> {
        self.cvars@.map_values(|c: Cvar| c@)
    }
}

impl CvarRegistry {
    /// Construct a new empty `CvarRegistry`.
    pub fn new() -> (reg: CvarRegistry)
        ensures
            reg@ == Map::<Seq<char>, CvarState>::empty(),
    {
        let reg = CvarRegistry { cvars: StringHashMap::new() };
        assert(reg@ =~= Map::<Seq<char>, CvarState>::empty());
        reg
    }

    /// Registers `name` with value and default `default` and the given flags,
    /// unless the name is taken.
    fn register_cvar(&mut self, name: &str, default: &str, archive: bool, info: bool) -> (res:
        Result<(), ()>)
        ensures
            (final(self)@, res) == register_result(
                old(self)@,
                name@,
                CvarState::fresh(default@, archive, info),
            ),
    {
        match self.cvars.get(name) {
            Some(_) => Err(()),
            None => {
                let cvar = Cvar { val: default.to_owned(), archive, info, default: default.to_owned() };
                self.cvars.insert(name.to_owned(), cvar);
                assert(self@ =~= old(self)@.insert(name@, CvarState::fresh(default@, archive, info)));
                Ok(())
            },
        }
    }

    /// Register a new `Cvar` with the given name.
    ///
    /// Fails, leaving the registry unchanged, if a cvar with that name exists.
    pub fn register(&mut self, name: &str, default: &str) -> (res: Result<(), ()>)
        ensures
            (final(self)@, res) == register_result(
                old(self)@,
                name@,
                CvarState::fresh(default@, false, false),
            ),
    {
        self.register_cvar(name, default, false, false)
    }

    /// Register a new archived `Cvar` with the given name.
    ///
    /// The value of this `Cvar` should be written to `vars.rc` whenever the game is closed or
    /// `host_writeconfig` is issued.
    pub fn register_archive(&mut self, name: &str, default: &str) -> (res: Result<(), ()>)
        ensures
            (final(self)@, res) == register_result(
                old(self)@,
                name@,
                CvarState::fresh(default@, true, false),
            ),
    {
        self.register_cvar(name, default, true, false)
    }

    /// Register a new info `Cvar` with the given name.
    ///
    /// When this `Cvar` is set, the serverinfo or userinfo string should be update to reflect its
    /// new value.
    pub fn register_updateinfo(&mut self, name: &str, default: &str) -> (res: Result<(), ()>)
        ensures
            (final(self)@, res) == register_result(
                old(self)@,
                name@,
                CvarState::fresh(default@, false, true),
            ),
    {
        self.register_cvar(name, default, false, true)
    }

    /// Register a new `Cvar` that is both archived and an info variable.
    pub fn register_archive_updateinfo(&mut self, name: &str, default: &str) -> (res: Result<(), ()>)
        ensures
            (final(self)@, res) == register_result(
                old(self)@,
                name@,
                CvarState::fresh(default@, true, true),
            ),
    {
        self.register_cvar(name, default, true, true)
    }
}

/// A cvar can be registered under a name only once: the first registration
/// succeeds and the cvar starts at its default value, while registering the
/// same name again, with whatever default and flags, fails and leaves the
/// registry as it is. The cvars under other names are untouched.
pub proof fn register_once(
    cvars: Map<Seq<char>, CvarState>,
    name: Seq<char>,
    first: CvarState,
    second: CvarState,
)
    requires
        !cvars.contains_key(name),
    ensures
        ({
            let (after, res) = register_result(cvars, name, first);
            &&& res is Ok
            &&& after.contains_key(name)
            &&& after[name] == first
            &&& register_result(after, name, second) == (after, Err::<(), ()>(()))
            &&& forall|other: Seq<char>|
                other != name ==> (#[trigger] after.contains_key(other) == cvars.contains_key(other)
                    && (cvars.contains_key(other) ==> after[other] == cvars[other]))
        }),
{
}

/// A freshly registered cvar holds its default value, with the flags it
/// was registered with.
pub proof fn registered_cvar_starts_at_default(
    cvars: Map<Seq<char>, CvarState>,
    name: Seq<char>,
    default: Seq<char>,
    archive: bool,
    info: bool,
)
    requires
        !cvars.contains_key(name),
    ensures
        register_result(cvars, name, CvarState::fresh(default, archive, info)).0[name] == (
        CvarState { val: default, archive, info, default }),
        CvarState::fresh(default, archive, info).val == default,
        CvarState::fresh(default, archive, info).default == default,
{
}

} // verus!
