//! Turns a configuration into the ordered steps of a build.

use vstd::prelude::*;
use crate::config::{ScaffoldConfig, ScaffoldConfigView, StackTemplate, Tool, ToolView};
use crate::ecosystem::{plan, plan_spec, then_invocations, then_spec, Ecosystem};
use crate::invocation::{Invocation, InvocationView};
use crate::module::{Module, ModuleView};
use crate::pipeline::{Pipeline, PipelineView, Step, StepView, TemplatePhase};
use crate::scripts::{scripts_plan, scripts_plan_spec};
use crate::text::{lemma_deep_view_add, lemma_deep_view_push};

verus! {

/// The init command of an ecosystem, if the ecosystem is used at all.
pub open spec fn init_part_spec(ecosystem: Ecosystem, group: Option<Seq<ModuleView>>) -> Seq<
    InvocationView,
> {
    if group is Some {
        seq![ecosystem.init_spec()]
    } else {
        Seq::empty()
    }
}

/// The init phase: one init command for each ecosystem in use, cargo first,
/// then the npm family, then composer.
pub open spec fn init_spec(config: ScaffoldConfigView) -> Seq<InvocationView> {
    init_part_spec(Ecosystem::Cargo, config.cargo_deps) + init_part_spec(
        Ecosystem::Npm,
        config.npm_deps,
    ) + init_part_spec(Ecosystem::Composer, config.composer_deps)
}

/// The install commands of one ecosystem: none where it is not used.
pub open spec fn group_plan_spec(ecosystem: Ecosystem, group: Option<Seq<ModuleView>>) -> Seq<
    InvocationView,
> {
    match group {
        Some(modules) => plan_spec(ecosystem, modules),
        None => Seq::empty(),
    }
}

/// The follow-up commands of a record: `None` where it has none.
pub open spec fn then_cmds_spec(module: ModuleView) -> Option<Seq<InvocationView>> {
    match module.then_commands {
        Some(_) => Some(then_spec(module)),
        None => None,
    }
}

/// The install commands of the tools, tool by tool in their order.
pub open spec fn tools_plan_spec(tools: Seq<ToolView>) -> Seq<InvocationView>
    decreases tools.len(),
{
    if tools.len() == 0 {
        Seq::empty()
    } else {
        tools_plan_spec(tools.drop_last()) + tools.last().install_commands
    }
}

/// The install commands of the database client, if one was chosen.
pub open spec fn db_client_plan_spec(db_client: Option<ToolView>) -> Seq<InvocationView> {
    match db_client {
        Some(tool) => tool.install_commands,
        None => Seq::empty(),
    }
}

/// The install queue, in its fixed order: the init phase, the npm-family
/// dependencies, the cargo dependencies, the composer dependencies, the
/// linters, the formatters, the test frameworks, the database client.
pub open spec fn install_commands_spec(config: ScaffoldConfigView) -> Seq<InvocationView> {
    init_spec(config) + group_plan_spec(Ecosystem::Npm, config.npm_deps) + group_plan_spec(
        Ecosystem::Cargo,
        config.cargo_deps,
    ) + group_plan_spec(Ecosystem::Composer, config.composer_deps) + tools_plan_spec(
        config.linters,
    ) + tools_plan_spec(config.formatters) + tools_plan_spec(config.test_frameworks)
        + db_client_plan_spec(config.db_client)
}

/// [`StepView::CreateFolder`] as a function value.
pub open spec fn folder_fn() -> spec_fn(Seq<char>) -> StepView {
    |folder: Seq<char>| StepView::CreateFolder(folder)
}

/// The directories to create: each declared subfolder, below the root and
/// with its parents; the root alone where no subfolder is declared, be it
/// that the list is missing or that it is empty.
pub open spec fn folders_spec(config: ScaffoldConfigView) -> Seq<StepView> {
    match config.subfolders {
        Some(folders) => if folders.len() > 0 {
            folders.map_values(folder_fn())
        } else {
            seq![StepView::CreateRoot]
        },
        None => seq![StepView::CreateRoot],
    }
}

/// A command without environment overrides.
pub open spec fn command_spec(program: Seq<char>, args: Seq<Seq<char>>) -> InvocationView {
    InvocationView { program, args, env: Seq::empty() }
}

/// Whether a stack takes part in the choice of a frontend.
pub open spec fn has_frontend_choice(stack: StackTemplate) -> bool {
    stack == StackTemplate::RSWEB || stack == StackTemplate::TSAPI
}

/// The frontend command of a build, if there is one. Only two stacks take
/// part. A single-page app comes first: it is scaffolded whether or not a
/// template engine was asked for too. Else a template engine is added with the
/// stack's own package manager. Else nothing.
pub open spec fn frontend_spec(stack: StackTemplate, spa: bool, template_engine: bool) -> Option<
    InvocationView,
> {
    if !has_frontend_choice(stack) {
        None
    } else if spa {
        Some(command_spec("bun"@, seq!["create"@, "vue@latest"@]))
    } else if template_engine {
        if stack == StackTemplate::TSAPI {
            Some(command_spec("bun"@, seq!["add"@, "handlebars"@]))
        } else {
            Some(command_spec("cargo"@, seq!["add"@, "handlebars"@]))
        }
    } else {
        None
    }
}

/// The offer of an end-to-end test runner that the plain web stack makes.
pub open spec fn e2e_offer_spec() -> StepView {
    StepView::Offer(
        "Would you like to install Playwright?"@,
        command_spec("npm"@, seq!["init"@, "playwright@latest"@]),
    )
}

/// The steps chosen by stack and frontend options: at most one.
pub open spec fn stack_steps_spec(config: ScaffoldConfigView) -> Seq<StepView> {
    if config.stack == StackTemplate::TSWEB {
        seq![e2e_offer_spec()]
    } else {
        match frontend_spec(config.stack, config.spa, config.template_engine) {
            Some(invocation) => seq![StepView::Spawn(invocation)],
            None => Seq::empty(),
        }
    }
}

/// What follows installation: the step chosen by stack and options, if any,
/// and then, for every stack, the copy of the post-install templates.
pub open spec fn post_install_spec(config: ScaffoldConfigView) -> Seq<StepView> {
    stack_steps_spec(config) + seq![StepView::CopyTemplates(TemplatePhase::AfterInstall)]
}

/// [`StepView::Run`] as a function value.
pub open spec fn run_fn() -> spec_fn(InvocationView) -> StepView {
    |invocation: InvocationView| StepView::Run(invocation)
}

/// Each command as a step that runs it to completion.
pub open spec fn run_steps_spec(invocations: Seq<InvocationView>) -> Seq<StepView> {
    invocations.map_values(run_fn())
}

/// The whole build, in order: directories, entering the root, the
/// pre-install templates, the install queue, the npm-family scripts, the
/// composer scripts, and what follows installation.
pub open spec fn build_spec(config: ScaffoldConfigView) -> Seq<StepView> {
    folders_spec(config) + seq![
        StepView::EnterRoot,
        StepView::CopyTemplates(TemplatePhase::BeforeInstall),
    ] + run_steps_spec(install_commands_spec(config)) + run_steps_spec(
        scripts_plan_spec(Ecosystem::Npm, config.npm_scripts),
    ) + run_steps_spec(scripts_plan_spec(Ecosystem::Composer, config.composer_scripts))
        + post_install_spec(config)
}

/// Moves `more` behind the commands in `target`.
fn extend(target: &mut Vec<Invocation>, more: Vec<Invocation>)
    ensures
        final(target).deep_view() == old(target).deep_view() + more.deep_view(),
{
    let ghost before = *target;
    let mut more = more;
    let ghost added = more;
    target.append(&mut more);
    proof {
        lemma_deep_view_add(before, *target, added);
    }
}

/// Puts a step that runs each of `invocations` behind the steps in `target`.
fn extend_with_runs(target: &mut Vec<Step>, invocations: &Vec<Invocation>)
    ensures
        final(target).deep_view() == old(target).deep_view() + run_steps_spec(
            invocations.deep_view(),
        ),
{
    let mut i: usize = 0;
    proof {
        assert(old(target).deep_view() + run_steps_spec(invocations.deep_view().take(0))
            =~= old(target).deep_view());
    }
    while i < invocations.len()
        invariant
            i <= invocations.len(),
            target.deep_view() == old(target).deep_view() + run_steps_spec(
                invocations.deep_view().take(i as int),
            ),
        decreases invocations.len() - i,
    {
        let ghost before = *target;
        let step = Step::Run(invocations[i].clone());
        target.push(step);
        proof {
            lemma_deep_view_push(before, *target, step);
            assert(invocations.deep_view()[i as int] == invocations[i as int]@);
            assert(target.deep_view() =~= old(target).deep_view() + run_steps_spec(
                invocations.deep_view().take(i + 1),
            ));
        }
        i += 1;
    }
    proof {
        assert(invocations.deep_view().take(invocations.len() as int) == invocations.deep_view());
    }
}

/// A command without environment overrides, from literals.
fn command(program: &str, first: &str, second: &str) -> (invocation: Invocation)
    ensures
        invocation@ == command_spec(program@, seq![first@, second@]),
{
    let mut args: Vec<String> = Vec::new();
    args.push(String::from_str(first));
    args.push(String::from_str(second));
    let invocation = Invocation::new(String::from_str(program), args);
    proof {
        assert(invocation@.args =~= seq![first@, second@]);
    }
    invocation
}

/// The install commands of `tools`, tool by tool in their order.
pub fn tools_plan(tools: &Vec<Tool>) -> (invocations: Vec<Invocation>)
    ensures
        invocations.deep_view() == tools_plan_spec(tools.deep_view()),
{
    let mut invocations: Vec<Invocation> = Vec::new();
    let mut i: usize = 0;
    proof {
        assert(invocations.deep_view() =~= Seq::<InvocationView>::empty());
    }
    while i < tools.len()
        invariant
            i <= tools.len(),
            invocations.deep_view() == tools_plan_spec(tools.deep_view().take(i as int)),
        decreases tools.len() - i,
    {
        extend(&mut invocations, tools[i].get_install_commands());
        proof {
            let next = tools.deep_view().take(i + 1);
            assert(next.drop_last() =~= tools.deep_view().take(i as int));
            assert(next.last() == tools[i as int]@);
        }
        i += 1;
    }
    proof {
        assert(tools.deep_view().take(tools.len() as int) == tools.deep_view());
    }
    invocations
}

/// Plans the build of one project.
#[derive(Debug)]
pub struct ProjectBuilder {
    config: ScaffoldConfig,
}

impl View for ProjectBuilder {
    type V = ScaffoldConfigView;

    closed spec fn view(&self) -> ScaffoldConfigView {
        self.config@
    }
}

impl ProjectBuilder {
    /// A builder for the project that `config` describes.
    pub fn new(config: ScaffoldConfig) -> (builder: Self)
        ensures
            builder@ == config@,
    {
        Self { config }
    }

    /// The configuration this builder works from.
    pub fn config(&self) -> (config: &ScaffoldConfig)
        ensures
            config@ == self@,
    {
        &self.config
    }

    /// The directories to create, as steps.
    pub fn make_folders(&self) -> (steps: Vec<Step>)
        ensures
            steps.deep_view() == folders_spec(self@),
    {
        let mut steps: Vec<Step> = Vec::new();
        match &self.config.subfolders {
            None => {},
            Some(folders) => {
                let mut i: usize = 0;
                proof {
                    assert(steps.deep_view() =~= folders.deep_view().take(0).map_values(folder_fn()));
                }
                while i < folders.len()
                    invariant
                        i <= folders.len(),
                        steps.deep_view() == folders.deep_view().take(i as int).map_values(
                            folder_fn(),
                        ),
                    decreases folders.len() - i,
                {
                    let ghost before = steps;
                    let step = Step::CreateFolder(folders[i].clone());
                    steps.push(step);
                    proof {
                        lemma_deep_view_push(before, steps, step);
                        assert(folders.deep_view()[i as int] == folders[i as int]@);
                        assert(steps.deep_view() =~= folders.deep_view().take(i + 1).map_values(
                            folder_fn(),
                        ));
                    }
                    i += 1;
                }
                proof {
                    assert(folders.deep_view().take(folders.len() as int) == folders.deep_view());
                }
            },
        }
        if steps.len() == 0 {
            steps.push(Step::CreateRoot);
            proof {
                assert(steps.deep_view() =~= seq![StepView::CreateRoot]);
            }
        }
        steps
    }

    /// The copy of the pre-install templates, as a step.
    pub fn pre_install_commands(&self) -> (step: Step)
        ensures
            step@ == StepView::CopyTemplates(TemplatePhase::BeforeInstall),
    {
        Step::CopyTemplates(TemplatePhase::BeforeInstall)
    }

    /// One init command for each ecosystem in use.
    pub fn generate_init_cmds(&self) -> (commands: Vec<Invocation>)
        ensures
            commands.deep_view() == init_spec(self@),
    {
        let mut commands: Vec<Invocation> = Vec::new();
        proof {
            assert(commands.deep_view() =~= Seq::<InvocationView>::empty());
        }
        if self.config.cargo_deps.is_some() {
            let ghost before = commands;
            let init = Ecosystem::Cargo.init();
            commands.push(init);
            proof {
                lemma_deep_view_push(before, commands, init);
            }
        }
        if self.config.npm_deps.is_some() {
            let ghost before = commands;
            let init = Ecosystem::Npm.init();
            commands.push(init);
            proof {
                lemma_deep_view_push(before, commands, init);
            }
        }
        if self.config.composer_deps.is_some() {
            let ghost before = commands;
            let init = Ecosystem::Composer.init();
            commands.push(init);
            proof {
                lemma_deep_view_push(before, commands, init);
            }
        }
        proof {
            assert(commands.deep_view() =~= init_spec(self@));
        }
        commands
    }

    /// The install commands of one ecosystem.
    fn generate_group_cmds(ecosystem: Ecosystem, group: &Option<Vec<Module>>) -> (commands: Vec<
        Invocation,
    >)
        ensures
            commands.deep_view() == group_plan_spec(ecosystem, group.deep_view()),
    {
        match group {
            Some(modules) => plan(ecosystem, modules),
            None => {
                let commands: Vec<Invocation> = Vec::new();
                proof {
                    assert(commands.deep_view() =~= Seq::<InvocationView>::empty());
                }
                commands
            },
        }
    }

    /// The install commands of the npm-family dependencies.
    pub fn generate_npm_cmds(&self) -> (commands: Vec<Invocation>)
        ensures
            commands.deep_view() == group_plan_spec(Ecosystem::Npm, self@.npm_deps),
    {
        Self::generate_group_cmds(Ecosystem::Npm, &self.config.npm_deps)
    }

    /// The install commands of the cargo dependencies.
    pub fn generate_cargo_cmds(&self) -> (commands: Vec<Invocation>)
        ensures
            commands.deep_view() == group_plan_spec(Ecosystem::Cargo, self@.cargo_deps),
    {
        Self::generate_group_cmds(Ecosystem::Cargo, &self.config.cargo_deps)
    }

    /// The install commands of the composer dependencies.
    pub fn generate_composer_cmds(&self) -> (commands: Vec<Invocation>)
        ensures
            commands.deep_view() == group_plan_spec(Ecosystem::Composer, self@.composer_deps),
    {
        Self::generate_group_cmds(Ecosystem::Composer, &self.config.composer_deps)
    }

    /// The follow-up commands of `module`: `None` where it has none.
    pub fn generate_then_cmds(&self, module: &Module) -> (commands: Option<Vec<Invocation>>)
        ensures
            commands.deep_view() == then_cmds_spec(module@),
    {
        match module.get_then() {
            Some(_) => Some(then_invocations(module)),
            None => None,
        }
    }

    /// The install commands of the linters.
    pub fn generate_linter_cmds(&self) -> (commands: Vec<Invocation>)
        ensures
            commands.deep_view() == tools_plan_spec(self@.linters),
    {
        tools_plan(&self.config.linters)
    }

    /// The install commands of the formatters.
    pub fn generate_formatter_cmds(&self) -> (commands: Vec<Invocation>)
        ensures
            commands.deep_view() == tools_plan_spec(self@.formatters),
    {
        tools_plan(&self.config.formatters)
    }

    /// The install commands of the test frameworks.
    pub fn generate_test_framework_cmds(&self) -> (commands: Vec<Invocation>)
        ensures
            commands.deep_view() == tools_plan_spec(self@.test_frameworks),
    {
        tools_plan(&self.config.test_frameworks)
    }

    /// The install commands of the database client.
    pub fn generate_db_client_cmds(&self) -> (commands: Vec<Invocation>)
        ensures
            commands.deep_view() == db_client_plan_spec(self@.db_client),
    {
        match &self.config.db_client {
            Some(db_client) => db_client.get_install_commands(),
            None => {
                let commands: Vec<Invocation> = Vec::new();
                proof {
                    assert(commands.deep_view() =~= Seq::<InvocationView>::empty());
                }
                commands
            },
        }
    }

    /// The install queue, in its fixed order.
    pub fn get_install_commands(&self) -> (commands: Vec<Invocation>)
        ensures
            commands.deep_view() == install_commands_spec(self@),
    {
        let mut commands = self.generate_init_cmds();
        extend(&mut commands, self.generate_npm_cmds());
        extend(&mut commands, self.generate_cargo_cmds());
        extend(&mut commands, self.generate_composer_cmds());
        extend(&mut commands, self.generate_linter_cmds());
        extend(&mut commands, self.generate_formatter_cmds());
        extend(&mut commands, self.generate_test_framework_cmds());
        extend(&mut commands, self.generate_db_client_cmds());
        commands
    }

    /// The commands that write the npm-family scripts into the manifest.
    pub fn set_npm_scripts(&self) -> (commands: Vec<Invocation>)
        ensures
            commands.deep_view() == scripts_plan_spec(Ecosystem::Npm, self@.npm_scripts),
    {
        scripts_plan(Ecosystem::Npm, &self.config.npm_scripts)
    }

    /// The commands that write the composer scripts into the manifest.
    pub fn set_composer_scripts(&self) -> (commands: Vec<Invocation>)
        ensures
            commands.deep_view() == scripts_plan_spec(Ecosystem::Composer, self@.composer_scripts),
    {
        scripts_plan(Ecosystem::Composer, &self.config.composer_scripts)
    }

    /// The frontend command of this build, if there is one.
    pub fn frontend_command(&self) -> (invocation: Option<Invocation>)
        ensures
            invocation.deep_view() == frontend_spec(self@.stack, self@.spa, self@.template_engine),
    {
        match self.config.stack {
            StackTemplate::RSWEB | StackTemplate::TSAPI => {
                if self.config.spa {
                    Some(command("bun", "create", "vue@latest"))
                } else if self.config.template_engine {
                    match self.config.stack {
                        StackTemplate::TSAPI => Some(command("bun", "add", "handlebars")),
                        _ => Some(command("cargo", "add", "handlebars")),
                    }
                } else {
                    None
                }
            },
            _ => None,
        }
    }

    /// What follows installation, as steps.
    pub fn post_install_commands(&self) -> (steps: Vec<Step>)
        ensures
            steps.deep_view() == post_install_spec(self@),
    {
        let mut steps: Vec<Step> = Vec::new();
        match self.config.stack {
            StackTemplate::TSWEB => {
                steps.push(
                    Step::Offer(
                        String::from_str("Would you like to install Playwright?"),
                        command("npm", "init", "playwright@latest"),
                    ),
                );
            },
            _ => {
                match self.frontend_command() {
                    Some(invocation) => {
                        steps.push(Step::Spawn(invocation));
                    },
                    None => {},
                }
            },
        }
        steps.push(Step::CopyTemplates(TemplatePhase::AfterInstall));
        proof {
            assert(steps.deep_view() =~= post_install_spec(self@));
        }
        steps
    }

    /// The whole build, ready to be carried out step by step.
    pub fn build(&self) -> (pipeline: Pipeline)
        ensures
            pipeline@ == (PipelineView { steps: build_spec(self@), attempted: 0, failure: None }),
    {
        let mut steps = self.make_folders();
        let ghost folders = steps;
        steps.push(Step::EnterRoot);
        let ghost entered = steps;
        steps.push(self.pre_install_commands());
        proof {
            lemma_deep_view_push(folders, entered, Step::EnterRoot);
            lemma_deep_view_push(
                entered,
                steps,
                Step::CopyTemplates(TemplatePhase::BeforeInstall),
            );
            assert(steps.deep_view() =~= folders_spec(self@) + seq![
                StepView::EnterRoot,
                StepView::CopyTemplates(TemplatePhase::BeforeInstall),
            ]);
        }
        extend_with_runs(&mut steps, &self.get_install_commands());
        extend_with_runs(&mut steps, &self.set_npm_scripts());
        extend_with_runs(&mut steps, &self.set_composer_scripts());
        let ghost before = steps;
        let mut last = self.post_install_commands();
        let ghost added = last;
        steps.append(&mut last);
        proof {
            lemma_deep_view_add(before, steps, added);
        }
        Pipeline::new(steps)
    }
}

/// Asking for a single-page app decides the frontend: the scaffolding
/// command is chosen whether or not a template engine was asked for as well,
/// and no template engine is added.
pub proof fn lemma_spa_takes_precedence(stack: StackTemplate, template_engine: bool)
    requires
        has_frontend_choice(stack),
    ensures
        frontend_spec(stack, true, template_engine) == Some(
            command_spec("bun"@, seq!["create"@, "vue@latest"@]),
        ),
        frontend_spec(stack, true, template_engine) == frontend_spec(stack, true, false),
{
}

/// A build that asks for a single-page app on a stack with a frontend choice
/// scaffolds the app and then copies the post-install templates: nothing else
/// follows installation, whether or not a template engine was asked for too.
pub proof fn lemma_spa_build_scaffolds_only(config: ScaffoldConfigView)
    requires
        has_frontend_choice(config.stack),
        config.spa,
    ensures
        post_install_spec(config) == seq![
            StepView::Spawn(command_spec("bun"@, seq!["create"@, "vue@latest"@])),
            StepView::CopyTemplates(TemplatePhase::AfterInstall),
        ],
{
    assert(post_install_spec(config) =~= seq![
        StepView::Spawn(command_spec("bun"@, seq!["create"@, "vue@latest"@])),
        StepView::CopyTemplates(TemplatePhase::AfterInstall),
    ]);
}

/// Every build makes a directory before it enters the root: the root itself
/// where no subfolder is declared, else the first declared subfolder below it.
pub proof fn lemma_build_starts_with_a_directory(config: ScaffoldConfigView)
    ensures
        folders_spec(config).len() >= 1,
        build_spec(config)[folders_spec(config).len() as int] == StepView::EnterRoot,
        match config.subfolders {
            Some(folders) => if folders.len() > 0 {
                build_spec(config)[0] == StepView::CreateFolder(folders[0])
            } else {
                build_spec(config)[0] == StepView::CreateRoot
            },
            None => build_spec(config)[0] == StepView::CreateRoot,
        },
{
}

/// Every build ends with the copy of the post-install templates, and the
/// stack and its options choose at most one step before it.
pub proof fn lemma_post_install_ends_with_copy(config: ScaffoldConfigView)
    ensures
        post_install_spec(config).len() >= 1,
        post_install_spec(config).len() <= 2,
        post_install_spec(config).last() == StepView::CopyTemplates(TemplatePhase::AfterInstall),
        build_spec(config).len() >= 1,
        build_spec(config).last() == StepView::CopyTemplates(TemplatePhase::AfterInstall),
{
}

} // verus!
