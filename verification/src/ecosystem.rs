//! The three package ecosystems and the commands each one plans.

use vstd::prelude::*;
use crate::invocation::{argv_invocation, Invocation, InvocationView};
use crate::module::{commands_valid, Module, ModuleView};
use crate::text::{join, join_with, lemma_deep_view_add, lemma_deep_view_push, same_text};

verus! {

/// A package ecosystem.
#[derive(Debug, Clone, Copy, PartialEq, Eq, Structural)]
pub enum Ecosystem {
    /// The npm family, driven by `bun`.
    Npm,
    /// Rust packages, driven by `cargo`.
    Cargo,
    /// PHP packages, driven by `composer`.
    Composer,
}

/// The package argument of an install command: the bare name for `"latest"`,
/// else the name, `@` and the version.
pub open spec fn package_arg(module: ModuleView) -> Seq<char> {
    if module.version == "latest"@ {
        module.name
    } else {
        module.name + "@"@ + module.version
    }
}

/// The development flag, where the record asks for it.
pub open spec fn dev_args(module: ModuleView) -> Seq<Seq<char>> {
    if module.dev {
        seq!["--dev"@]
    } else {
        Seq::empty()
    }
}

/// Whether an install command of `ecosystem` carries the record's features.
pub open spec fn has_feature_args(ecosystem: Ecosystem, module: ModuleView) -> bool {
    ecosystem == Ecosystem::Cargo && module.features is Some && module.features->0.len() > 0
}

/// The feature flag and the comma-joined features: cargo only, and only for a
/// list that is not empty.
pub open spec fn feature_args(ecosystem: Ecosystem, module: ModuleView) -> Seq<Seq<char>> {
    if has_feature_args(ecosystem, module) {
        seq!["--features"@, join_with(module.features->0, ","@)]
    } else {
        Seq::empty()
    }
}

/// The follow-up commands of a record, each a literal argument vector, in
/// their declared order; none where the record has none.
pub open spec fn then_spec(module: ModuleView) -> Seq<InvocationView> {
    match module.then_commands {
        Some(commands) => commands.map_values(|argv: Seq<Seq<char>>| argv_invocation(argv)),
        None => Seq::empty(),
    }
}

/// What one record contributes: its install command, then its follow-ups.
pub open spec fn module_plan(ecosystem: Ecosystem, module: ModuleView) -> Seq<InvocationView> {
    seq![ecosystem.install_spec(module)] + then_spec(module)
}

/// The commands for a list of records: the contribution of each record, in
/// declaration order.
pub open spec fn plan_spec(ecosystem: Ecosystem, modules: Seq<ModuleView>) -> Seq<InvocationView>
    decreases modules.len(),
{
    if modules.len() == 0 {
        Seq::empty()
    } else {
        plan_spec(ecosystem, modules.drop_last()) + module_plan(ecosystem, modules.last())
    }
}

impl Ecosystem {
    /// The key of this ecosystem's group in a template's `deps` table.
    pub open spec fn key_spec(self) -> Seq<char> {
        match self {
            Ecosystem::Npm => "npm"@,
            Ecosystem::Cargo => "cargo"@,
            Ecosystem::Composer => "composer"@,
        }
    }

    /// The executable that initialises manifests and installs packages.
    pub open spec fn tool_spec(self) -> Seq<char> {
        match self {
            Ecosystem::Npm => "bun"@,
            Ecosystem::Cargo => "cargo"@,
            Ecosystem::Composer => "composer"@,
        }
    }

    /// The subcommand that adds a package.
    pub open spec fn add_verb_spec(self) -> Seq<char> {
        match self {
            Ecosystem::Npm => "add"@,
            Ecosystem::Cargo => "add"@,
            Ecosystem::Composer => "require"@,
        }
    }

    /// The command that creates the ecosystem's manifest.
    pub open spec fn init_spec(self) -> InvocationView {
        InvocationView {
            program: self.tool_spec(),
            args: match self {
                Ecosystem::Npm => seq!["init"@, "-y"@],
                Ecosystem::Cargo => seq!["init"@],
                Ecosystem::Composer => seq!["init"@],
            },
            env: Seq::empty(),
        }
    }

    /// The environment of an install command: cargo is told to fetch git
    /// sources with the git command line.
    pub open spec fn install_env_spec(self) -> Seq<(Seq<char>, Seq<char>)> {
        match self {
            Ecosystem::Cargo => seq![("CARGO_NET_GIT_FETCH_WITH_CLI"@, "true"@)],
            _ => Seq::empty(),
        }
    }

    /// The command that installs one record.
    pub open spec fn install_spec(self, module: ModuleView) -> InvocationView {
        InvocationView {
            program: self.tool_spec(),
            args: seq![self.add_verb_spec(), package_arg(module)] + dev_args(module) + feature_args(
                self,
                module,
            ),
            env: self.install_env_spec(),
        }
    }

    /// The key of this ecosystem's group in a template's `deps` table.
    pub fn key(self) -> (key: &'static str)
        ensures
            key@ == self.key_spec(),
    {
        match self {
            Ecosystem::Npm => "npm",
            Ecosystem::Cargo => "cargo",
            Ecosystem::Composer => "composer",
        }
    }

    /// The executable that initialises manifests and installs packages.
    pub fn tool(self) -> (tool: &'static str)
        ensures
            tool@ == self.tool_spec(),
    {
        match self {
            Ecosystem::Npm => "bun",
            Ecosystem::Cargo => "cargo",
            Ecosystem::Composer => "composer",
        }
    }

    /// The command that creates the ecosystem's manifest.
    pub fn init(self) -> (invocation: Invocation)
        ensures
            invocation@ == self.init_spec(),
    {
        let mut args: Vec<String> = Vec::new();
        args.push(String::from_str("init"));
        match self {
            Ecosystem::Npm => {
                args.push(String::from_str("-y"));
            },
            _ => {},
        }
        let invocation = Invocation::new(String::from_str(self.tool()), args);
        proof {
            assert(invocation@.args =~= self.init_spec().args);
        }
        invocation
    }

    /// The command that installs `module`.
    pub fn install(self, module: &Module) -> (invocation: Invocation)
        ensures
            invocation@ == self.install_spec(module@),
            invocation@.args.len() >= 2,
            module@.version == "latest"@ ==> invocation@.args[1] == module@.name,
            module@.version != "latest"@ ==> invocation@.args[1] == module@.name + "@"@
                + module@.version,
    {
        let mut args: Vec<String> = Vec::new();
        let verb = match self {
            Ecosystem::Composer => "require",
            _ => "add",
        };
        args.push(String::from_str(verb));
        let package = if same_text(module.get_version(), "latest") {
            String::from_str(module.get_name())
        } else {
            String::from_str(module.get_name()).concat("@").concat(module.get_version())
        };
        args.push(package);
        if module.is_dev() {
            args.push(String::from_str("--dev"));
        }
        match self {
            Ecosystem::Cargo => {
                match module.get_features() {
                    Some(features) => {
                        if features.len() > 0 {
                            args.push(String::from_str("--features"));
                            args.push(join(features, ","));
                        }
                    },
                    None => {},
                }
            },
            _ => {},
        }
        let mut env: Vec<(String, String)> = Vec::new();
        match self {
            Ecosystem::Cargo => {
                env.push((String::from_str("CARGO_NET_GIT_FETCH_WITH_CLI"), String::from_str("true")));
            },
            _ => {},
        }
        let invocation = Invocation { program: String::from_str(self.tool()), args, env };
        proof {
            assert(invocation@.args =~= self.install_spec(module@).args);
            assert(invocation@.env =~= self.install_env_spec());
        }
        invocation
    }
}

/// The follow-up commands of `module`, in their declared order.
pub fn then_invocations(module: &Module) -> (invocations: Vec<Invocation>)
    ensures
        invocations.deep_view() == then_spec(module@),
{
    let mut invocations: Vec<Invocation> = Vec::new();
    match module.get_then() {
        None => {
            assert(invocations.deep_view() =~= then_spec(module@));
        },
        Some(commands) => {
            let mut i: usize = 0;
            while i < commands.len()
                invariant
                    i <= commands.len(),
                    commands_valid(commands.deep_view()),
                    invocations.deep_view() == commands.deep_view().take(i as int).map_values(
                        |argv: Seq<Seq<char>>| argv_invocation(argv),
                    ),
                decreases commands.len() - i,
            {
                let ghost before = invocations;
                proof {
                    assert(commands.deep_view()[i as int] == commands[i as int].deep_view());
                }
                let invocation = Invocation::from_argv(&commands[i]);
                invocations.push(invocation);
                proof {
                    lemma_deep_view_push(before, invocations, invocation);
                    assert(invocations.deep_view() =~= commands.deep_view().take(i + 1).map_values(
                        |argv: Seq<Seq<char>>| argv_invocation(argv),
                    ));
                }
                i += 1;
            }
            proof {
                assert(commands.deep_view().take(commands.len() as int) == commands.deep_view());
            }
        },
    }
    invocations
}

/// The commands that install `modules` in `ecosystem`: for each record in
/// declaration order its install command, directly followed by its follow-ups.
pub fn plan(ecosystem: Ecosystem, modules: &Vec<Module>) -> (invocations: Vec<Invocation>)
    ensures
        invocations.deep_view() == plan_spec(ecosystem, modules.deep_view()),
{
    let mut invocations: Vec<Invocation> = Vec::new();
    let mut i: usize = 0;
    while i < modules.len()
        invariant
            i <= modules.len(),
            invocations.deep_view() == plan_spec(ecosystem, modules.deep_view().take(i as int)),
        decreases modules.len() - i,
    {
        let ghost before = invocations;
        let install = ecosystem.install(&modules[i]);
        invocations.push(install);
        let ghost between = invocations;
        let mut follow_ups = then_invocations(&modules[i]);
        let ghost more = follow_ups;
        invocations.append(&mut follow_ups);
        proof {
            lemma_deep_view_push(before, between, install);
            lemma_deep_view_add(between, invocations, more);
            let next = modules.deep_view().take(i + 1);
            assert(next.drop_last() == modules.deep_view().take(i as int));
            assert(next.last() == modules[i as int]@);
            assert(invocations.deep_view() =~= plan_spec(ecosystem, next));
        }
        i += 1;
    }
    proof {
        assert(modules.deep_view().take(modules.len() as int) == modules.deep_view());
    }
    invocations
}

/// How often `word` occurs among `args`.
pub open spec fn occurrences(args: Seq<Seq<char>>, word: Seq<char>) -> nat
    decreases args.len(),
{
    if args.len() == 0 {
        0
    } else {
        occurrences(args.drop_last(), word) + if args.last() == word {
            1nat
        } else {
            0nat
        }
    }
}

/// Where the contribution of record `index` starts in the plan of `modules`.
pub open spec fn plan_offset(ecosystem: Ecosystem, modules: Seq<ModuleView>, index: int) -> int {
    plan_spec(ecosystem, modules.take(index)).len() as int
}

/// An unpinned record is installed by its bare name.
pub proof fn lemma_latest_installs_bare_name(ecosystem: Ecosystem, module: ModuleView)
    requires
        module.version == "latest"@,
    ensures
        ecosystem.install_spec(module).args[1] == module.name,
{
}

/// A pinned record is installed as its name, `@` and its version.
pub proof fn lemma_pinned_installs_name_at_version(ecosystem: Ecosystem, module: ModuleView)
    requires
        module.version != "latest"@,
    ensures
        ecosystem.install_spec(module).args[1] == module.name + "@"@ + module.version,
{
}

/// The development flag stands exactly once in the install command of a
/// development-only record and nowhere in that of any other record, as long as
/// neither the package argument nor the joined feature list is itself spelled
/// like the flag.
pub proof fn lemma_dev_flag_once(ecosystem: Ecosystem, module: ModuleView)
    requires
        package_arg(module) != "--dev"@,
        has_feature_args(ecosystem, module) ==> join_with(module.features->0, ","@) != "--dev"@,
    ensures
        occurrences(ecosystem.install_spec(module).args, "--dev"@) == if module.dev {
            1nat
        } else {
            0nat
        },
        ecosystem.install_spec(module).program != "--dev"@,
{
    reveal_strlit("--dev");
    reveal_strlit("bun");
    reveal_strlit("cargo");
    reveal_strlit("composer");
    assert("bun"@.len() == 3 && "cargo"@[0] == 'c' && "composer"@.len() == 8 && "--dev"@[0] == '-');
    reveal_strlit("add");
    reveal_strlit("require");
    reveal_strlit("--features");
    let flag = "--dev"@;
    let head = seq![ecosystem.add_verb_spec(), package_arg(module)];
    assert(flag.len() == 5);
    assert("add"@.len() == 3);
    assert("require"@.len() == 7);
    assert("--features"@.len() == 10);
    assert(ecosystem.add_verb_spec() != flag);
    assert("--features"@ != flag);
    assert(occurrences(head, flag) == 0) by {
        reveal_with_fuel(occurrences, 3);
        assert(head.drop_last() =~= seq![ecosystem.add_verb_spec()]);
        assert(head.drop_last().drop_last() =~= Seq::<Seq<char>>::empty());
    }
    lemma_occurrences_add(head, dev_args(module), flag);
    lemma_occurrences_add(head + dev_args(module), feature_args(ecosystem, module), flag);
    assert(occurrences(dev_args(module), flag) == if module.dev {
        1nat
    } else {
        0nat
    }) by {
        reveal_with_fuel(occurrences, 2);
        if module.dev {
            assert(dev_args(module).drop_last() =~= Seq::<Seq<char>>::empty());
        }
    }
    assert(occurrences(feature_args(ecosystem, module), flag) == 0) by {
        reveal_with_fuel(occurrences, 3);
        if has_feature_args(ecosystem, module) {
            let tail = feature_args(ecosystem, module);
            assert(tail.drop_last() =~= seq!["--features"@]);
            assert(tail.drop_last().drop_last() =~= Seq::<Seq<char>>::empty());
        }
    }
}

/// Occurrences add up over concatenation.
pub proof fn lemma_occurrences_add(left: Seq<Seq<char>>, right: Seq<Seq<char>>, word: Seq<char>)
    ensures
        occurrences(left + right, word) == occurrences(left, word) + occurrences(right, word),
    decreases right.len(),
{
    if right.len() == 0 {
        assert(left + right =~= left);
    } else {
        assert((left + right).drop_last() =~= left + right.drop_last());
        assert((left + right).last() == right.last());
        lemma_occurrences_add(left, right.drop_last(), word);
    }
}

/// The plan of a shorter list of records is the start of the plan of a longer one.
pub proof fn lemma_plan_prefix(ecosystem: Ecosystem, modules: Seq<ModuleView>, count: int)
    requires
        0 <= count <= modules.len(),
    ensures
        plan_spec(ecosystem, modules.take(count)).len() <= plan_spec(ecosystem, modules).len(),
        plan_spec(ecosystem, modules.take(count)) == plan_spec(ecosystem, modules).take(
            plan_spec(ecosystem, modules.take(count)).len() as int,
        ),
    decreases modules.len(),
{
    if count == modules.len() {
        assert(modules.take(count) =~= modules);
        assert(plan_spec(ecosystem, modules).take(plan_spec(ecosystem, modules).len() as int)
            =~= plan_spec(ecosystem, modules));
    } else {
        let shorter = modules.drop_last();
        assert(shorter.take(count) =~= modules.take(count));
        lemma_plan_prefix(ecosystem, shorter, count);
        let inner = plan_spec(ecosystem, modules.take(count));
        assert(inner =~= plan_spec(ecosystem, modules).take(inner.len() as int));
    }
}

/// The follow-up commands of a record stand directly behind its install
/// command, in their declared order, and the next record's contribution starts
/// right after them. A record without follow-up commands contributes its
/// install command alone.
pub proof fn lemma_then_follows_install(ecosystem: Ecosystem, modules: Seq<ModuleView>, index: int)
    requires
        0 <= index < modules.len(),
    ensures
        ({
            let plan = plan_spec(ecosystem, modules);
            let start = plan_offset(ecosystem, modules, index);
            let follow_ups = then_spec(modules[index]);
            &&& 0 <= start
            &&& start + 1 + follow_ups.len() == plan_offset(ecosystem, modules, index + 1)
            &&& plan_offset(ecosystem, modules, index + 1) <= plan.len()
            &&& plan[start] == ecosystem.install_spec(modules[index])
            &&& forall|k: int|
                0 <= k < follow_ups.len() ==> #[trigger] plan[start + 1 + k] == follow_ups[k]
            &&& modules[index].then_commands is None ==> follow_ups.len() == 0
            &&& modules[index].then_commands matches Some(commands) ==> {
                &&& follow_ups.len() == commands.len()
                &&& forall|k: int|
                    0 <= k < commands.len() ==> #[trigger] follow_ups[k] == argv_invocation(
                        commands[k],
                    )
            }
        }),
{
    let plan = plan_spec(ecosystem, modules);
    let upto = modules.take(index + 1);
    assert(upto.drop_last() =~= modules.take(index));
    assert(upto.last() == modules[index]);
    lemma_plan_prefix(ecosystem, modules, index + 1);
    let block = module_plan(ecosystem, modules[index]);
    let start = plan_offset(ecosystem, modules, index);
    let follow_ups = then_spec(modules[index]);
    assert(plan_spec(ecosystem, upto) == plan_spec(ecosystem, modules.take(index)) + block);
    assert(plan[start] == plan_spec(ecosystem, upto)[start]);
    assert forall|k: int| 0 <= k < follow_ups.len() implies #[trigger] plan[start + 1 + k]
        == follow_ups[k] by {
        assert(plan[start + 1 + k] == plan_spec(ecosystem, upto)[start + 1 + k]);
        assert(block[1 + k] == follow_ups[k]);
    }
}

/// Install commands keep the declaration order of their records: the install
/// command of an earlier record stands before that of every later one.
pub proof fn lemma_plan_keeps_declaration_order(
    ecosystem: Ecosystem,
    modules: Seq<ModuleView>,
    earlier: int,
    later: int,
)
    requires
        0 <= earlier < later < modules.len(),
    ensures
        ({
            let plan = plan_spec(ecosystem, modules);
            let first = plan_offset(ecosystem, modules, earlier);
            let second = plan_offset(ecosystem, modules, later);
            &&& 0 <= first < second < plan.len()
            &&& plan[first] == ecosystem.install_spec(modules[earlier])
            &&& plan[second] == ecosystem.install_spec(modules[later])
        }),
    decreases later - earlier,
{
    lemma_then_follows_install(ecosystem, modules, earlier);
    lemma_then_follows_install(ecosystem, modules, later);
    if earlier + 1 < later {
        lemma_plan_keeps_declaration_order(ecosystem, modules, earlier + 1, later);
    }
}

} // verus!
