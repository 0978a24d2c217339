//! The dependency record and the lists that hold it.

pub mod document;
pub mod reader;
pub mod source;
pub mod template;

use vstd::prelude::*;
use crate::text::{clone_commands, clone_strings, lemma_deep_view_push};

verus! {

/// Follow-up commands of a dependency, each a literal argument vector.
pub type ThenCommands = Vec<Vec<String>>;

/// Every argument vector names an executable in position 0.
pub open spec fn commands_valid(commands: Seq<Seq<Seq<char>>>) -> bool {
    forall|i: int| 0 <= i < commands.len() ==> (#[trigger] commands[i]).len() > 0
}

/// Follow-up commands, where present, are valid.
pub open spec fn then_valid(then_commands: Option<Seq<Seq<Seq<char>>>>) -> bool {
    then_commands matches Some(commands) ==> commands_valid(commands)
}

/// One installable package.
///
/// `name` is not empty. `version` is a version or range passed through as
/// written, or `"latest"`, which leaves the package unpinned. `features`
/// matter to cargo only. The follow-up commands run right after the package's
/// own install command, and each of them names an executable.
#[derive(Debug)]
pub struct Module {
    name: String,
    version: String,
    dev: bool,
    features: Option<Vec<String>>,
    then_commands: Option<ThenCommands>,
}

/// What a [`Module`] holds, as mathematical values.
pub struct ModuleView {
    pub name: Seq<char>,
    pub version: Seq<char>,
    pub dev: bool,
    pub features: Option<Seq<Seq<char>>>,
    pub then_commands: Option<Seq<Seq<Seq<char>>>>,
}

impl ModuleView {
    /// The package has a name, and each follow-up command names an executable.
    pub open spec fn wf(self) -> bool {
        self.name.len() > 0 && then_valid(self.then_commands)
    }
}

impl View for Module {
    type V = ModuleView;

    closed spec fn view(&self) -> ModuleView {
        ModuleView {
            name: self.name@,
            version: self.version@,
            dev: self.dev,
            features: self.features.deep_view(),
            then_commands: self.then_commands.deep_view(),
        }
    }
}

impl DeepView for Module {
    type V = ModuleView;

    open spec fn deep_view(&self) -> ModuleView {
        self@
    }
}

/// Whether every follow-up command names an executable.
pub fn then_is_valid(then_commands: &Option<ThenCommands>) -> (valid: bool)
    ensures
        valid == then_valid(then_commands.deep_view()),
{
    match then_commands {
        None => true,
        Some(commands) => {
            let mut i: usize = 0;
            while i < commands.len()
                invariant
                    i <= commands.len(),
                    then_commands.deep_view() == Some(commands.deep_view()),
                    commands_valid(commands.deep_view().take(i as int)),
                decreases commands.len() - i,
            {
                if commands[i].len() == 0 {
                    proof {
                        assert(commands.deep_view()[i as int] == commands[i as int].deep_view());
                        assert(commands[i as int].deep_view().len() == 0);
                        assert(!commands_valid(commands.deep_view()));
                    }
                    return false;
                }
                proof {
                    let next = commands.deep_view().take(i + 1);
                    assert forall|k: int| 0 <= k < next.len() implies (#[trigger] next[k]).len()
                        > 0 by {
                        if k < i {
                            assert(commands.deep_view().take(i as int)[k].len() > 0);
                        } else {
                            assert(next[k] == commands[i as int].deep_view());
                        }
                    }
                }
                i += 1;
            }
            proof {
                assert(commands.deep_view().take(commands.len() as int) == commands.deep_view());
            }
            true
        },
    }
}

impl Module {
    #[verifier::type_invariant]
    spec fn inv(self) -> bool {
        self.name@.len() > 0 && then_valid(self.then_commands.deep_view())
    }

    /// A record without features.
    pub fn new(name: String, version: String, dev: bool, then_commands: Option<ThenCommands>) -> (module:
        Self)
        requires
            name@.len() > 0,
            then_valid(then_commands.deep_view()),
        ensures
            module@ == (ModuleView {
                name: name@,
                version: version@,
                dev,
                features: None,
                then_commands: then_commands.deep_view(),
            }),
            module@.wf(),
    {
        Module { name, version, dev, features: None, then_commands }
    }

    /// The record with these fields, or `None` where the name is empty or a
    /// follow-up command names no executable.
    pub fn try_new(
        name: String,
        version: String,
        dev: bool,
        then_commands: Option<ThenCommands>,
    ) -> (module: Option<Self>)
        ensures
            module is Some <==> name@.len() > 0 && then_valid(then_commands.deep_view()),
            module matches Some(made) ==> made@ == (ModuleView {
                name: name@,
                version: version@,
                dev,
                features: None,
                then_commands: then_commands.deep_view(),
            }),
    {
        if name.as_str().is_empty() || !then_is_valid(&then_commands) {
            None
        } else {
            Some(Module::new(name, version, dev, then_commands))
        }
    }

    /// The same record with `features` as its feature list.
    pub fn with_features(self, features: Vec<String>) -> (module: Self)
        ensures
            module@ == (ModuleView { features: Some(features.deep_view()), ..self@ }),
            module@.wf(),
    {
        proof {
            use_type_invariant(&self);
        }
        Module {
            name: self.name,
            version: self.version,
            dev: self.dev,
            features: Some(features),
            then_commands: self.then_commands,
        }
    }

    /// The package identifier.
    pub fn get_name(&self) -> (name: &str)
        ensures
            name@ == self@.name,
            name@.len() > 0,
    {
        proof {
            use_type_invariant(self);
        }
        self.name.as_str()
    }

    /// The version as written, or `"latest"`.
    pub fn get_version(&self) -> (version: &str)
        ensures
            version@ == self@.version,
    {
        self.version.as_str()
    }

    /// Whether the package is a development-only dependency.
    pub fn is_dev(&self) -> (dev: bool)
        ensures
            dev == self@.dev,
    {
        self.dev
    }

    /// The feature list, where one was given.
    pub fn get_features(&self) -> (features: Option<&Vec<String>>)
        ensures
            features.deep_view() == self@.features,
    {
        match &self.features {
            Some(features) => Some(features),
            None => None,
        }
    }

    /// The follow-up commands, where any were given.
    pub fn get_then(&self) -> (then_commands: Option<&ThenCommands>)
        ensures
            then_commands.deep_view() == self@.then_commands,
            self@.wf(),
    {
        proof {
            use_type_invariant(self);
        }
        match &self.then_commands {
            Some(commands) => Some(commands),
            None => None,
        }
    }
}

impl Clone for Module {
    fn clone(&self) -> (copy: Self)
        ensures
            copy@ == self@,
    {
        proof {
            use_type_invariant(self);
        }
        let features = match &self.features {
            Some(features) => Some(clone_strings(features)),
            None => None,
        };
        let then_commands = match &self.then_commands {
            Some(commands) => Some(clone_commands(commands)),
            None => None,
        };
        Module {
            name: self.name.clone(),
            version: self.version.clone(),
            dev: self.dev,
            features,
            then_commands,
        }
    }
}

/// An owned copy of a list of records.
pub fn clone_modules(modules: &Vec<Module>) -> (copy: Vec<Module>)
    ensures
        copy.deep_view() == modules.deep_view(),
{
    let mut copy: Vec<Module> = Vec::new();
    let mut i: usize = 0;
    while i < modules.len()
        invariant
            i <= modules.len(),
            copy.deep_view() == modules.deep_view().take(i as int),
        decreases modules.len() - i,
    {
        let ghost before = copy;
        let module = modules[i].clone();
        copy.push(module);
        proof {
            lemma_deep_view_push(before, copy, module);
            assert(copy.deep_view() == modules.deep_view().take(i + 1));
        }
        i += 1;
    }
    proof {
        assert(modules.deep_view().take(modules.len() as int) == modules.deep_view());
    }
    copy
}

/// The npm-family dependencies of a project, in the order they were added.
pub struct NpmDeps {
    deps: Vec<Module>,
}

impl View for NpmDeps {
    type V = Seq<ModuleView>;

    closed spec fn view(&self) -> Seq<ModuleView> {
        self.deps.deep_view()
    }
}

impl NpmDeps {
    /// An empty list.
    pub fn new() -> (deps: Self)
        ensures
            deps@ == Seq::<ModuleView>::empty(),
    {
        let deps: Vec<Module> = Vec::new();
        assert(deps.deep_view() == Seq::<ModuleView>::empty());
        NpmDeps { deps }
    }

    /// Adds `module` after the records already held.
    pub fn add(&mut self, module: Module)
        ensures
            final(self)@ == old(self)@.push(module@),
    {
        let ghost before = self.deps;
        self.deps.push(module);
        proof {
            lemma_deep_view_push(before, self.deps, module);
        }
    }

    /// The records held, in the order they were added.
    pub fn get(&self) -> (modules: Vec<Module>)
        ensures
            modules.deep_view() == self@,
    {
        clone_modules(&self.deps)
    }
}

} // verus!
