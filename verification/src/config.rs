//! The resolved configuration a build starts from.

use vstd::prelude::*;
use crate::invocation::{clone_invocations, Invocation, InvocationView};
use crate::module::{Module, ModuleView};
use crate::scripts::ScriptMap;

verus! {

/// The stack a project is built from.
#[derive(Debug, Clone, Copy, PartialEq, Eq, Structural)]
pub enum StackTemplate {
    /// A Rust web application.
    RSWEB,
    /// A TypeScript API.
    TSAPI,
    /// A plain TypeScript web application.
    TSWEB,
    /// Any other stack.
    Other,
}

/// A linter, formatter, test framework or database client: something that
/// brings its own install commands.
#[derive(Debug)]
pub struct Tool {
    pub name: String,
    pub install_commands: Vec<Invocation>,
}

/// What a [`Tool`] holds, as mathematical values.
pub struct ToolView {
    pub name: Seq<char>,
    pub install_commands: Seq<InvocationView>,
}

impl View for Tool {
    type V = ToolView;

    open spec fn view(&self) -> ToolView {
        ToolView { name: self.name@, install_commands: self.install_commands.deep_view() }
    }
}

impl DeepView for Tool {
    type V = ToolView;

    open spec fn deep_view(&self) -> ToolView {
        self@
    }
}

impl Tool {
    /// A tool and the commands that install it.
    pub fn new(name: String, install_commands: Vec<Invocation>) -> (tool: Self)
        ensures
            tool@ == (ToolView { name: name@, install_commands: install_commands.deep_view() }),
    {
        Tool { name, install_commands }
    }

    /// The commands that install this tool, in order.
    pub fn get_install_commands(&self) -> (invocations: Vec<Invocation>)
        ensures
            invocations.deep_view() == self@.install_commands,
    {
        clone_invocations(&self.install_commands)
    }
}

/// Everything a build is told: where the project goes, what it depends on in
/// each ecosystem, which scripts its manifests get, which tools it uses, its
/// stack and the two frontend options.
///
/// A dependency list that is `None` means that the ecosystem is not used; an
/// empty list means that it is used without dependencies.
#[derive(Debug)]
pub struct ScaffoldConfig {
    pub root_dir: String,
    pub subfolders: Option<Vec<String>>,
    pub npm_deps: Option<Vec<Module>>,
    pub cargo_deps: Option<Vec<Module>>,
    pub composer_deps: Option<Vec<Module>>,
    pub npm_scripts: Option<ScriptMap>,
    pub composer_scripts: Option<ScriptMap>,
    pub linters: Vec<Tool>,
    pub formatters: Vec<Tool>,
    pub test_frameworks: Vec<Tool>,
    pub db_client: Option<Tool>,
    pub stack: StackTemplate,
    pub spa: bool,
    pub template_engine: bool,
}

/// What a [`ScaffoldConfig`] holds, as mathematical values.
pub struct ScaffoldConfigView {
    pub root_dir: Seq<char>,
    pub subfolders: Option<Seq<Seq<char>>>,
    pub npm_deps: Option<Seq<ModuleView>>,
    pub cargo_deps: Option<Seq<ModuleView>>,
    pub composer_deps: Option<Seq<ModuleView>>,
    pub npm_scripts: Option<Seq<(Seq<char>, Seq<char>)>>,
    pub composer_scripts: Option<Seq<(Seq<char>, Seq<char>)>>,
    pub linters: Seq<ToolView>,
    pub formatters: Seq<ToolView>,
    pub test_frameworks: Seq<ToolView>,
    pub db_client: Option<ToolView>,
    pub stack: StackTemplate,
    pub spa: bool,
    pub template_engine: bool,
}

impl View for ScaffoldConfig {
    type V = ScaffoldConfigView;

    open spec fn view(&self) -> ScaffoldConfigView {
        ScaffoldConfigView {
            root_dir: self.root_dir@,
            subfolders: self.subfolders.deep_view(),
            npm_deps: self.npm_deps.deep_view(),
            cargo_deps: self.cargo_deps.deep_view(),
            composer_deps: self.composer_deps.deep_view(),
            npm_scripts: self.npm_scripts.deep_view(),
            composer_scripts: self.composer_scripts.deep_view(),
            linters: self.linters.deep_view(),
            formatters: self.formatters.deep_view(),
            test_frameworks: self.test_frameworks.deep_view(),
            db_client: self.db_client.deep_view(),
            stack: self.stack,
            spa: self.spa,
            template_engine: self.template_engine,
        }
    }
}

impl ScaffoldConfig {
    /// The configuration of a project at `root_dir` on `stack` that uses no
    /// ecosystem, tool, script or frontend option.
    pub fn new(root_dir: String, stack: StackTemplate) -> (config: Self)
        ensures
            config@ == (ScaffoldConfigView {
                root_dir: root_dir@,
                subfolders: None,
                npm_deps: None,
                cargo_deps: None,
                composer_deps: None,
                npm_scripts: None,
                composer_scripts: None,
                linters: Seq::empty(),
                formatters: Seq::empty(),
                test_frameworks: Seq::empty(),
                db_client: None,
                stack,
                spa: false,
                template_engine: false,
            }),
    {
        let linters: Vec<Tool> = Vec::new();
        let formatters: Vec<Tool> = Vec::new();
        let test_frameworks: Vec<Tool> = Vec::new();
        proof {
            assert(linters.deep_view() =~= Seq::<ToolView>::empty());
            assert(formatters.deep_view() =~= Seq::<ToolView>::empty());
            assert(test_frameworks.deep_view() =~= Seq::<ToolView>::empty());
        }
        ScaffoldConfig {
            root_dir,
            subfolders: None,
            npm_deps: None,
            cargo_deps: None,
            composer_deps: None,
            npm_scripts: None,
            composer_scripts: None,
            linters,
            formatters,
            test_frameworks,
            db_client: None,
            stack,
            spa: false,
            template_engine: false,
        }
    }
}

} // verus!
