use scaffold::pipeline::fatal;
use scaffold::{
    BuildError, Failure, Invocation, Module, Outcome, Pipeline, ProjectBuilder, ScaffoldConfig,
    ScriptMap, StackTemplate, Status, Step, TemplatePhase,
};

fn strings(items: &[&str]) -> Vec<String> {
    items.iter().map(|item| item.to_string()).collect()
}

fn invocation(program: &str, args: &[&str]) -> Invocation {
    Invocation { program: program.to_string(), args: strings(args), env: vec![] }
}

fn config(stack: StackTemplate, spa: bool, template_engine: bool) -> ScaffoldConfig {
    let mut config = ScaffoldConfig::new("demo".to_string(), stack);
    config.spa = spa;
    config.template_engine = template_engine;
    config
}

fn run(program: &str) -> Step {
    Step::Run(invocation(program, &[]))
}

#[test]
fn spa_takes_precedence_over_template_engine() {
    for stack in [StackTemplate::RSWEB, StackTemplate::TSAPI] {
        let builder = ProjectBuilder::new(config(stack, true, true));
        assert_eq!(builder.frontend_command(), Some(invocation("bun", &["create", "vue@latest"])));
        assert_eq!(
            builder.post_install_commands(),
            vec![
                Step::Spawn(invocation("bun", &["create", "vue@latest"])),
                Step::CopyTemplates(TemplatePhase::AfterInstall),
            ]
        );
        let spa_only = ProjectBuilder::new(config(stack, true, false));
        assert_eq!(spa_only.frontend_command(), builder.frontend_command());
    }
}

#[test]
fn template_engine_comes_from_the_stacks_package_manager() {
    let api = ProjectBuilder::new(config(StackTemplate::TSAPI, false, true));
    assert_eq!(api.frontend_command(), Some(invocation("bun", &["add", "handlebars"])));
    let web = ProjectBuilder::new(config(StackTemplate::RSWEB, false, true));
    assert_eq!(web.frontend_command(), Some(invocation("cargo", &["add", "handlebars"])));
    assert_eq!(
        web.post_install_commands(),
        vec![
            Step::Spawn(invocation("cargo", &["add", "handlebars"])),
            Step::CopyTemplates(TemplatePhase::AfterInstall),
        ]
    );
}

#[test]
fn no_frontend_without_an_option() {
    for stack in [StackTemplate::RSWEB, StackTemplate::TSAPI] {
        let builder = ProjectBuilder::new(config(stack, false, false));
        assert_eq!(builder.frontend_command(), None);
        assert_eq!(
            builder.post_install_commands(),
            vec![Step::CopyTemplates(TemplatePhase::AfterInstall)]
        );
    }
}

#[test]
fn other_stacks_take_no_part_in_the_frontend_choice() {
    for stack in [StackTemplate::TSWEB, StackTemplate::Other] {
        for (spa, template_engine) in [(true, true), (true, false), (false, true)] {
            let builder = ProjectBuilder::new(config(stack, spa, template_engine));
            assert_eq!(builder.frontend_command(), None);
        }
    }
    let other = ProjectBuilder::new(config(StackTemplate::Other, true, true));
    assert_eq!(
        other.post_install_commands(),
        vec![Step::CopyTemplates(TemplatePhase::AfterInstall)]
    );
}

#[test]
fn plain_web_stack_offers_the_end_to_end_runner() {
    let builder = ProjectBuilder::new(config(StackTemplate::TSWEB, true, true));
    assert_eq!(
        builder.post_install_commands(),
        vec![
            Step::Offer(
                "Would you like to install Playwright?".to_string(),
                invocation("npm", &["init", "playwright@latest"]),
            ),
            Step::CopyTemplates(TemplatePhase::AfterInstall),
        ]
    );
}

#[test]
fn folders_are_the_subfolders_or_the_root() {
    let mut with = config(StackTemplate::Other, false, false);
    with.subfolders = Some(strings(&["src", "tests/unit"]));
    assert_eq!(
        ProjectBuilder::new(with).make_folders(),
        vec![Step::CreateFolder("src".to_string()), Step::CreateFolder("tests/unit".to_string())]
    );
    let without = config(StackTemplate::Other, false, false);
    assert_eq!(ProjectBuilder::new(without).make_folders(), vec![Step::CreateRoot]);
    let mut none_declared = config(StackTemplate::Other, false, false);
    none_declared.subfolders = Some(vec![]);
    assert_eq!(ProjectBuilder::new(none_declared).make_folders(), vec![Step::CreateRoot]);
}

#[test]
fn root_is_made_before_it_is_entered() {
    let mut config = config(StackTemplate::Other, false, false);
    config.subfolders = Some(vec![]);
    let pipeline = ProjectBuilder::new(config).build();
    assert_eq!(pipeline.next(), Some(&Step::CreateRoot));
    assert_eq!(pipeline.steps()[1], Step::EnterRoot);
}

#[test]
fn template_directories_have_their_names() {
    assert_eq!(TemplatePhase::BeforeInstall.dir_name(), "before_install");
    assert_eq!(TemplatePhase::AfterInstall.dir_name(), "after_install");
    let builder = ProjectBuilder::new(config(StackTemplate::Other, false, false));
    assert_eq!(builder.pre_install_commands(), Step::CopyTemplates(TemplatePhase::BeforeInstall));
    assert_eq!(builder.config().root_dir, "demo");
}

#[test]
fn build_lays_out_every_step_in_order() {
    let mut config = config(StackTemplate::TSAPI, false, true);
    config.subfolders = Some(strings(&["src"]));
    config.npm_deps = Some(vec![Module::new(
        "hono".to_string(),
        "latest".to_string(),
        false,
        Some(vec![strings(&["echo", "installed"])]),
    )]);
    let mut scripts = ScriptMap::new();
    scripts.insert("dev".to_string(), "bun run src/index.ts".to_string());
    config.npm_scripts = Some(scripts);
    let pipeline = ProjectBuilder::new(config).build();
    assert_eq!(pipeline.status(), Status::Running);
    assert_eq!(pipeline.attempted(), 0);
    assert_eq!(
        pipeline.steps(),
        &vec![
            Step::CreateFolder("src".to_string()),
            Step::EnterRoot,
            Step::CopyTemplates(TemplatePhase::BeforeInstall),
            Step::Run(invocation("bun", &["init", "-y"])),
            Step::Run(invocation("bun", &["add", "hono"])),
            Step::Run(invocation("echo", &["installed"])),
            Step::Run(invocation("npm", &["pkg", "set", "scripts.dev=bun run src/index.ts"])),
            Step::Spawn(invocation("bun", &["add", "handlebars"])),
            Step::CopyTemplates(TemplatePhase::AfterInstall),
        ]
    );
}

#[test]
fn smallest_build_still_copies_the_templates() {
    let pipeline = ProjectBuilder::new(config(StackTemplate::Other, false, false)).build();
    assert_eq!(
        pipeline.steps(),
        &vec![
            Step::CreateRoot,
            Step::EnterRoot,
            Step::CopyTemplates(TemplatePhase::BeforeInstall),
            Step::CopyTemplates(TemplatePhase::AfterInstall),
        ]
    );
}

#[test]
fn launch_failure_halts_the_queue() {
    let mut pipeline = Pipeline::new(vec![run("one"), run("two"), run("three")]);
    assert_eq!(pipeline.next(), Some(&run("one")));
    pipeline.record(Outcome::Completed);
    assert_eq!(pipeline.next(), Some(&run("two")));
    pipeline.record(Outcome::LaunchFailed);
    let error = BuildError { step: 1, failure: Failure::Launch };
    assert_eq!(pipeline.status(), Status::Aborted(error));
    assert_eq!(pipeline.failed_step(), Some(&run("two")));
    assert_eq!(pipeline.next(), None);
    assert_eq!(pipeline.attempted(), 2);
    // Whatever is reported afterwards changes nothing.
    pipeline.record(Outcome::Completed);
    pipeline.record(Outcome::NonZeroExit);
    assert_eq!(pipeline.status(), Status::Aborted(error));
    assert_eq!(pipeline.next(), None);
    assert_eq!(pipeline.attempted(), 2);
}

#[test]
fn failing_exit_status_does_not_stop_the_queue() {
    let mut pipeline = Pipeline::new(vec![run("one"), run("two"), run("three")]);
    let mut seen = vec![];
    while let Some(step) = pipeline.next() {
        seen.push(step.clone());
        pipeline.record(Outcome::NonZeroExit);
    }
    assert_eq!(seen, vec![run("one"), run("two"), run("three")]);
    assert_eq!(pipeline.status(), Status::Finished);
    assert_eq!(pipeline.failed_step(), None);
    assert_eq!(pipeline.attempted(), 3);
    pipeline.record(Outcome::LaunchFailed);
    assert_eq!(pipeline.status(), Status::Finished);
}

#[test]
fn only_the_copy_before_installation_may_fail() {
    let before = Step::CopyTemplates(TemplatePhase::BeforeInstall);
    let after = Step::CopyTemplates(TemplatePhase::AfterInstall);
    assert_eq!(fatal(&before, Outcome::FilesystemFailed), None);
    assert_eq!(fatal(&after, Outcome::FilesystemFailed), Some(Failure::Filesystem));
    assert_eq!(fatal(&Step::CreateRoot, Outcome::FilesystemFailed), Some(Failure::Filesystem));
    assert_eq!(
        fatal(&Step::CreateFolder("src".to_string()), Outcome::FilesystemFailed),
        Some(Failure::Filesystem)
    );
    assert_eq!(fatal(&Step::EnterRoot, Outcome::FilesystemFailed), Some(Failure::Filesystem));

    let mut pipeline = Pipeline::new(vec![before, run("install"), after, run("never")]);
    pipeline.record(Outcome::FilesystemFailed);
    assert_eq!(pipeline.status(), Status::Running);
    pipeline.record(Outcome::Completed);
    pipeline.record(Outcome::FilesystemFailed);
    assert_eq!(
        pipeline.status(),
        Status::Aborted(BuildError { step: 2, failure: Failure::Filesystem })
    );
    assert_eq!(pipeline.next(), None);
}

#[test]
fn offers_may_be_declined_but_must_be_asked() {
    let offer = Step::Offer("Install?".to_string(), invocation("npm", &["init", "x"]));
    assert_eq!(fatal(&offer, Outcome::Declined), None);
    assert_eq!(fatal(&offer, Outcome::Completed), None);
    assert_eq!(fatal(&offer, Outcome::NonZeroExit), None);
    assert_eq!(fatal(&offer, Outcome::PromptFailed), Some(Failure::Prompt));
    assert_eq!(fatal(&offer, Outcome::LaunchFailed), Some(Failure::Launch));
    let spawn = Step::Spawn(invocation("bun", &["create", "vue@latest"]));
    assert_eq!(fatal(&spawn, Outcome::LaunchFailed), Some(Failure::Launch));
    assert_eq!(fatal(&spawn, Outcome::NonZeroExit), None);
}

#[test]
fn empty_pipeline_is_finished() {
    let mut pipeline = Pipeline::new(vec![]);
    assert_eq!(pipeline.status(), Status::Finished);
    assert_eq!(pipeline.next(), None);
    pipeline.record(Outcome::LaunchFailed);
    assert_eq!(pipeline.status(), Status::Finished);
    assert_eq!(pipeline.attempted(), 0);
}
