//! Resolving a template document into dependency records.

use vstd::prelude::*;
use crate::ecosystem::Ecosystem;
use crate::module::document::{lookup, table_get, Node, NodeView};
use crate::module::reader::read_document;
use crate::module::source::toml_document;
use crate::module::{commands_valid, Module, ModuleView, ThenCommands};
use crate::text::{
    boolean_string, boolean_text, integer_string, integer_text, lemma_deep_view_push, same_text,
};

verus! {

/// Why a template could not be resolved: the part of it that is malformed.
#[derive(Debug, Clone, Copy, PartialEq, Eq, Structural)]
pub enum ParseError {
    /// The text is not a TOML document.
    Syntax,
    /// There is no `deps` table.
    Deps,
    /// The group of an ecosystem is not a list.
    Group(Ecosystem),
    /// An entry of a group is not a table.
    Record,
    /// `name` is missing, is not a string, or is empty.
    Name,
    /// `version` is not a string.
    Version,
    /// `dev` is not a boolean.
    Dev,
    /// `features` is not a list.
    Features,
    /// An entry of `features` is not a string.
    Feature,
    /// `then` is not a list.
    Then,
    /// An entry of `then` is not a list, or is an empty one.
    Command,
    /// An argument of a `then` command is a list or a table.
    Argument,
}

impl ParseError {
    /// The error in words.
    pub open spec fn message_spec(self) -> Seq<char> {
        match self {
            ParseError::Syntax => "Error parsing toml"@,
            ParseError::Deps => "Error parsing dependencies"@,
            ParseError::Group(Ecosystem::Npm) => "Error parsing npm dependencies"@,
            ParseError::Group(Ecosystem::Cargo) => "Error parsing cargo dependencies"@,
            ParseError::Group(Ecosystem::Composer) => "Error parsing composer dependencies"@,
            ParseError::Record => "Error parsing dep"@,
            ParseError::Name => "Error parsing name"@,
            ParseError::Version => "Error parsing version"@,
            ParseError::Dev => "Error parsing dev"@,
            ParseError::Features => "Error parsing features"@,
            ParseError::Feature => "Error parsing feature"@,
            ParseError::Then => "Error parsing then array"@,
            ParseError::Command => "Error parsing cmd"@,
            ParseError::Argument => "Error parsing arg"@,
        }
    }

    /// The error in words.
    pub fn message(self) -> (message: &'static str)
        ensures
            message@ == self.message_spec(),
    {
        match self {
            ParseError::Syntax => "Error parsing toml",
            ParseError::Deps => "Error parsing dependencies",
            ParseError::Group(Ecosystem::Npm) => "Error parsing npm dependencies",
            ParseError::Group(Ecosystem::Cargo) => "Error parsing cargo dependencies",
            ParseError::Group(Ecosystem::Composer) => "Error parsing composer dependencies",
            ParseError::Record => "Error parsing dep",
            ParseError::Name => "Error parsing name",
            ParseError::Version => "Error parsing version",
            ParseError::Dev => "Error parsing dev",
            ParseError::Features => "Error parsing features",
            ParseError::Feature => "Error parsing feature",
            ParseError::Then => "Error parsing then array",
            ParseError::Command => "Error parsing cmd",
            ParseError::Argument => "Error parsing arg",
        }
    }
}

/// The dependency records of a template, by ecosystem. A group that the
/// template does not hold is `None`; a group that it holds empty is an empty
/// list.
#[derive(Debug)]
pub struct Dependencies {
    pub npm: Option<Vec<Module>>,
    pub cargo: Option<Vec<Module>>,
    pub composer: Option<Vec<Module>>,
}

/// What [`Dependencies`] holds, as mathematical values.
pub struct DependenciesView {
    pub npm: Option<Seq<ModuleView>>,
    pub cargo: Option<Seq<ModuleView>>,
    pub composer: Option<Seq<ModuleView>>,
}

impl View for Dependencies {
    type V = DependenciesView;

    open spec fn view(&self) -> DependenciesView {
        DependenciesView {
            npm: self.npm.deep_view(),
            cargo: self.cargo.deep_view(),
            composer: self.composer.deep_view(),
        }
    }
}

impl DeepView for Dependencies {
    type V = DependenciesView;

    open spec fn deep_view(&self) -> DependenciesView {
        self@
    }
}

impl Dependencies {
    /// The group of an ecosystem.
    pub fn group(&self, ecosystem: Ecosystem) -> (modules: Option<&Vec<Module>>)
        ensures
            modules.deep_view() == self@.group(ecosystem),
    {
        match ecosystem {
            Ecosystem::Npm => self.npm.as_ref(),
            Ecosystem::Cargo => self.cargo.as_ref(),
            Ecosystem::Composer => self.composer.as_ref(),
        }
    }

    /// The group under a key of the `deps` table.
    pub fn get(&self, key: &str) -> (modules: Option<&Vec<Module>>)
        ensures
            modules.deep_view() == self@.group_by_key(key@),
    {
        if same_text(key, "npm") {
            self.npm.as_ref()
        } else if same_text(key, "cargo") {
            self.cargo.as_ref()
        } else if same_text(key, "composer") {
            self.composer.as_ref()
        } else {
            None
        }
    }

    /// Whether the template holds a group under `key`.
    pub fn contains_key(&self, key: &str) -> (held: bool)
        ensures
            held == self@.group_by_key(key@) is Some,
    {
        self.get(key).is_some()
    }
}

impl DependenciesView {
    /// The group of an ecosystem.
    pub open spec fn group(self, ecosystem: Ecosystem) -> Option<Seq<ModuleView>> {
        match ecosystem {
            Ecosystem::Npm => self.npm,
            Ecosystem::Cargo => self.cargo,
            Ecosystem::Composer => self.composer,
        }
    }

    /// The group under a key of the `deps` table.
    pub open spec fn group_by_key(self, key: Seq<char>) -> Option<Seq<ModuleView>> {
        if key == "npm"@ {
            self.npm
        } else if key == "cargo"@ {
            self.cargo
        } else if key == "composer"@ {
            self.composer
        } else {
            None
        }
    }
}

/// Applies `each` to the items in order. The first failure is the result;
/// without one, the results in order.
pub open spec fn try_map<A, B>(items: Seq<A>, each: spec_fn(A) -> Result<B, ParseError>) -> Result<
    Seq<B>,
    ParseError,
>
    decreases items.len(),
{
    if items.len() == 0 {
        Ok(Seq::empty())
    } else {
        match try_map(items.drop_last(), each) {
            Err(error) => Err(error),
            Ok(done) => match each(items.last()) {
                Err(error) => Err(error),
                Ok(value) => Ok(done.push(value)),
            },
        }
    }
}

/// Reads a string, failing with `error` on anything else.
pub open spec fn text_or(error: ParseError) -> spec_fn(NodeView) -> Result<Seq<char>, ParseError> {
    |node: NodeView|
        match node {
            NodeView::Text(text) => Ok(text),
            _ => Err(error),
        }
}

/// A list of strings: `list_error` where the node is no list, `item_error`
/// where an item is no string.
pub open spec fn text_list_spec(node: NodeView, list_error: ParseError, item_error: ParseError) -> Result<
    Seq<Seq<char>>,
    ParseError,
> {
    match node {
        NodeView::Array(items) => try_map(items, text_or(item_error)),
        _ => Err(list_error),
    }
}

/// One argument of a follow-up command, as a string: a string as it is, an
/// integer in decimal, a boolean as `true` or `false`, a float or a datetime
/// as the parser prints it. A list or a table is no argument.
pub open spec fn argument_spec(node: NodeView) -> Result<Seq<char>, ParseError> {
    match node {
        NodeView::Text(text) => Ok(text),
        NodeView::Integer(number) => Ok(integer_text(number as int)),
        NodeView::Boolean(flag) => Ok(boolean_text(flag)),
        NodeView::Float(printed) => Ok(printed),
        NodeView::Datetime(printed) => Ok(printed),
        NodeView::Array(_) => Err(ParseError::Argument),
        NodeView::Table(_) => Err(ParseError::Argument),
    }
}

/// [`argument_spec`] as a function value.
pub open spec fn argument_fn() -> spec_fn(NodeView) -> Result<Seq<char>, ParseError> {
    |node: NodeView| argument_spec(node)
}

/// One follow-up command: a list of arguments that is not empty.
pub open spec fn command_spec(node: NodeView) -> Result<Seq<Seq<char>>, ParseError> {
    match node {
        NodeView::Array(items) => match try_map(items, argument_fn()) {
            Ok(argv) => if argv.len() == 0 {
                Err(ParseError::Command)
            } else {
                Ok(argv)
            },
            Err(error) => Err(error),
        },
        _ => Err(ParseError::Command),
    }
}

/// [`command_spec`] as a function value.
pub open spec fn command_fn() -> spec_fn(NodeView) -> Result<Seq<Seq<char>>, ParseError> {
    |node: NodeView| command_spec(node)
}

/// The `name` of a record: a string that is not empty.
pub open spec fn name_spec(entries: Seq<(Seq<char>, NodeView)>) -> Result<Seq<char>, ParseError> {
    match lookup(entries, "name"@) {
        Some(NodeView::Text(name)) => if name.len() > 0 {
            Ok(name)
        } else {
            Err(ParseError::Name)
        },
        _ => Err(ParseError::Name),
    }
}

/// The `version` of a record: `"latest"` where the record has none.
pub open spec fn version_spec(entries: Seq<(Seq<char>, NodeView)>) -> Result<Seq<char>, ParseError> {
    match lookup(entries, "version"@) {
        None => Ok("latest"@),
        Some(NodeView::Text(version)) => Ok(version),
        Some(_) => Err(ParseError::Version),
    }
}

/// The `dev` flag of a record: `false` where the record has none.
pub open spec fn dev_spec(entries: Seq<(Seq<char>, NodeView)>) -> Result<bool, ParseError> {
    match lookup(entries, "dev"@) {
        None => Ok(false),
        Some(NodeView::Boolean(dev)) => Ok(dev),
        Some(_) => Err(ParseError::Dev),
    }
}

/// The `features` of a record: none where the record has none.
pub open spec fn features_spec(entries: Seq<(Seq<char>, NodeView)>) -> Result<
    Option<Seq<Seq<char>>>,
    ParseError,
> {
    match lookup(entries, "features"@) {
        None => Ok(None),
        Some(node) => match text_list_spec(node, ParseError::Features, ParseError::Feature) {
            Ok(features) => Ok(Some(features)),
            Err(error) => Err(error),
        },
    }
}

/// The follow-up commands of a record: none where the record has no `then`.
pub open spec fn then_commands_spec(entries: Seq<(Seq<char>, NodeView)>) -> Result<
    Option<Seq<Seq<Seq<char>>>>,
    ParseError,
> {
    match lookup(entries, "then"@) {
        None => Ok(None),
        Some(NodeView::Array(items)) => match try_map(items, command_fn()) {
            Ok(commands) => Ok(Some(commands)),
            Err(error) => Err(error),
        },
        Some(_) => Err(ParseError::Then),
    }
}

/// One dependency record. Its fields are read in the order `name`, `version`,
/// `dev`, `features`, `then`, and the first malformed one is the error.
pub open spec fn record_spec(node: NodeView) -> Result<ModuleView, ParseError> {
    match node {
        NodeView::Table(entries) => match name_spec(entries) {
            Ok(name) => match version_spec(entries) {
                Err(error) => Err(error),
                Ok(version) => match dev_spec(entries) {
                    Err(error) => Err(error),
                    Ok(dev) => match features_spec(entries) {
                        Err(error) => Err(error),
                        Ok(features) => match then_commands_spec(entries) {
                            Err(error) => Err(error),
                            Ok(then_commands) => Ok(
                                ModuleView { name, version, dev, features, then_commands },
                            ),
                        },
                    },
                },
            },
            Err(error) => Err(error),
        },
        _ => Err(ParseError::Record),
    }
}

/// [`record_spec`] as a function value.
pub open spec fn record_fn() -> spec_fn(NodeView) -> Result<ModuleView, ParseError> {
    |node: NodeView| record_spec(node)
}

/// The group of `ecosystem` in a `deps` table: `None` where the table has no
/// entry under the ecosystem's key.
pub open spec fn group_spec(entries: Seq<(Seq<char>, NodeView)>, ecosystem: Ecosystem) -> Result<
    Option<Seq<ModuleView>>,
    ParseError,
> {
    match lookup(entries, ecosystem.key_spec()) {
        None => Ok(None),
        Some(NodeView::Array(items)) => match try_map(items, record_fn()) {
            Ok(modules) => Ok(Some(modules)),
            Err(error) => Err(error),
        },
        Some(_) => Err(ParseError::Group(ecosystem)),
    }
}

/// The records of a document. The groups are read in the order npm, cargo,
/// composer, and the first malformed one is the error.
pub open spec fn deps_spec(document: NodeView) -> Result<DependenciesView, ParseError> {
    match document {
        NodeView::Table(top) => match lookup(top, "deps"@) {
            Some(NodeView::Table(groups)) => match group_spec(groups, Ecosystem::Npm) {
                Err(error) => Err(error),
                Ok(npm) => match group_spec(groups, Ecosystem::Cargo) {
                    Err(error) => Err(error),
                    Ok(cargo) => match group_spec(groups, Ecosystem::Composer) {
                        Err(error) => Err(error),
                        Ok(composer) => Ok(DependenciesView { npm, cargo, composer }),
                    },
                },
            },
            _ => Err(ParseError::Deps),
        },
        _ => Err(ParseError::Deps),
    }
}

/// The records of a template text.
pub open spec fn parse_deps_spec(text: Seq<char>) -> Result<DependenciesView, ParseError> {
    match toml_document(text) {
        None => Err(ParseError::Syntax),
        Some(document) => deps_spec(document),
    }
}

/// A record without a `name` is refused, whatever else it holds.
pub proof fn lemma_record_needs_name(entries: Seq<(Seq<char>, NodeView)>)
    requires
        lookup(entries, "name"@) is None,
    ensures
        record_spec(NodeView::Table(entries)) == Err::<ModuleView, ParseError>(ParseError::Name),
{
}

/// What resolves is a record of the data model: it has a name, and each of
/// its follow-up commands names an executable.
pub proof fn lemma_resolved_record_is_valid(node: NodeView)
    requires
        record_spec(node) is Ok,
    ensures
        record_spec(node)->Ok_0.wf(),
{
    let entries = node->Table_0;
    match lookup(entries, "then"@) {
        Some(NodeView::Array(items)) => {
            lemma_commands_are_valid(items);
        },
        _ => {},
    }
}

/// A command made of strings, numbers, booleans and datetimes is read,
/// whatever their mix: argument for argument and in the same order, each as
/// the string it is coerced to. Only an empty command, or one that holds a
/// list or a table, is refused.
pub proof fn lemma_command_coerces_scalars(items: Seq<NodeView>)
    ensures
        command_spec(NodeView::Array(items)) is Ok <==> items.len() > 0 && forall|i: int|
            0 <= i < items.len() ==> !((#[trigger] items[i]) is Array) && !(items[i] is Table),
        command_spec(NodeView::Array(items)) matches Ok(argv) ==> {
            &&& argv.len() == items.len()
            &&& forall|i: int|
                0 <= i < items.len() ==> #[trigger] argument_spec(items[i]) == Ok::<
                    Seq<char>,
                    ParseError,
                >(argv[i])
        },
{
    lemma_try_map_ok(items, argument_fn());
    if forall|i: int|
        0 <= i < items.len() ==> !((#[trigger] items[i]) is Array) && !(items[i] is Table) {
        assert forall|i: int| 0 <= i < items.len() implies (#[trigger] argument_fn()(
            items[i],
        )) is Ok by {
            assert(!(items[i] is Array) && !(items[i] is Table));
        }
    }
    if try_map(items, argument_fn()) is Ok {
        let argv = try_map(items, argument_fn())->Ok_0;
        assert forall|i: int| 0 <= i < items.len() implies !((#[trigger] items[i]) is Array) && !(
        items[i] is Table) && argument_spec(items[i]) == Ok::<Seq<char>, ParseError>(argv[i]) by {
            assert(argument_fn()(items[i]) == Ok::<Seq<char>, ParseError>(argv[i]));
        }
    }
}

/// Follow-up commands that were read each name an executable.
pub proof fn lemma_commands_are_valid(items: Seq<NodeView>)
    requires
        try_map(items, command_fn()) is Ok,
    ensures
        commands_valid(try_map(items, command_fn())->Ok_0),
{
    lemma_try_map_ok(items, command_fn());
    let commands = try_map(items, command_fn())->Ok_0;
    assert forall|i: int| 0 <= i < commands.len() implies (#[trigger] commands[i]).len() > 0 by {
        assert(command_fn()(items[i]) == Ok::<Seq<Seq<char>>, ParseError>(commands[i]));
    }
}

/// The records of a group that resolves are those of its entries, one for
/// one and in the order of the entries.
pub proof fn lemma_group_keeps_declaration_order(
    entries: Seq<(Seq<char>, NodeView)>,
    ecosystem: Ecosystem,
    items: Seq<NodeView>,
)
    requires
        lookup(entries, ecosystem.key_spec()) == Some(NodeView::Array(items)),
        group_spec(entries, ecosystem) is Ok,
    ensures
        group_spec(entries, ecosystem)->Ok_0 matches Some(modules) && modules.len() == items.len()
            && forall|i: int|
            0 <= i < items.len() ==> #[trigger] record_spec(items[i]) == Ok::<
                ModuleView,
                ParseError,
            >(modules[i]),
{
    lemma_try_map_ok(items, record_fn());
    let modules = try_map(items, record_fn())->Ok_0;
    assert forall|i: int| 0 <= i < items.len() implies #[trigger] record_spec(items[i]) == Ok::<
        ModuleView,
        ParseError,
    >(modules[i]) by {
        assert(record_fn()(items[i]) == Ok::<ModuleView, ParseError>(modules[i]));
    }
}

/// A field that a record leaves out is no error: `version` is then
/// `"latest"`, `dev` is `false`, and there are no features and no follow-up
/// commands.
pub proof fn lemma_absent_fields_default(entries: Seq<(Seq<char>, NodeView)>)
    ensures
        lookup(entries, "version"@) is None ==> version_spec(entries) == Ok::<
            Seq<char>,
            ParseError,
        >("latest"@),
        lookup(entries, "dev"@) is None ==> dev_spec(entries) == Ok::<bool, ParseError>(false),
        lookup(entries, "features"@) is None ==> features_spec(entries) == Ok::<
            Option<Seq<Seq<char>>>,
            ParseError,
        >(None),
        lookup(entries, "then"@) is None ==> then_commands_spec(entries) == Ok::<
            Option<Seq<Seq<Seq<char>>>>,
            ParseError,
        >(None),
{
}

/// A record that holds a `name` and nothing else resolves, with every other
/// field at its default.
pub proof fn lemma_record_with_name_only(entries: Seq<(Seq<char>, NodeView)>, name: Seq<char>)
    requires
        lookup(entries, "name"@) == Some(NodeView::Text(name)),
        name.len() > 0,
        lookup(entries, "version"@) is None,
        lookup(entries, "dev"@) is None,
        lookup(entries, "features"@) is None,
        lookup(entries, "then"@) is None,
    ensures
        record_spec(NodeView::Table(entries)) == Ok::<ModuleView, ParseError>(
            ModuleView {
                name,
                version: "latest"@,
                dev: false,
                features: None,
                then_commands: None,
            },
        ),
{
}

/// A list is read exactly where each of its items is read, and what is read
/// then holds, item for item and in the same order, what each item gave.
pub proof fn lemma_try_map_ok<A, B>(items: Seq<A>, each: spec_fn(A) -> Result<B, ParseError>)
    ensures
        try_map(items, each) is Ok <==> forall|i: int|
            0 <= i < items.len() ==> (#[trigger] each(items[i])) is Ok,
        try_map(items, each) matches Ok(values) ==> {
            &&& values.len() == items.len()
            &&& forall|i: int|
                0 <= i < items.len() ==> #[trigger] each(items[i]) == Ok::<B, ParseError>(values[i])
        },
    decreases items.len(),
{
    if items.len() > 0 {
        let before = items.drop_last();
        lemma_try_map_ok(before, each);
        assert forall|i: int| 0 <= i < before.len() implies before[i] == items[i] by {}
        if try_map(items, each) is Ok {
            assert forall|i: int| 0 <= i < items.len() implies (#[trigger] each(items[i])) is Ok by {
                if i < before.len() {
                    assert(each(before[i]) is Ok);
                }
            }
        } else if try_map(before, each) is Ok {
            assert(each(items[items.len() - 1]) is Err);
        } else {
            let bad = choose|i: int| 0 <= i < before.len() && !((#[trigger] each(before[i])) is Ok);
            assert(each(items[bad]) is Err);
        }
        if try_map(items, each) is Ok {
            let values = try_map(items, each)->Ok_0;
            let done = try_map(before, each)->Ok_0;
            assert forall|i: int| 0 <= i < items.len() implies #[trigger] each(items[i]) == Ok::<
                B,
                ParseError,
            >(values[i]) by {
                if i < before.len() {
                    assert(each(before[i]) == Ok::<B, ParseError>(done[i]));
                }
            }
        }
    }
}

/// The failure of a list is the failure of its first item that fails.
pub proof fn lemma_try_map_first_failure<A, B>(
    items: Seq<A>,
    each: spec_fn(A) -> Result<B, ParseError>,
    first: int,
)
    requires
        0 <= first < items.len(),
        each(items[first]) is Err,
        forall|i: int| 0 <= i < first ==> (#[trigger] each(items[i])) is Ok,
    ensures
        try_map(items, each) == Err::<Seq<B>, ParseError>(each(items[first])->Err_0),
{
    let before = items.take(first);
    lemma_try_map_ok(before, each);
    assert forall|i: int| 0 <= i < before.len() implies (#[trigger] each(before[i])) is Ok by {
        assert(before[i] == items[i]);
    }
    lemma_try_map_step(items, each, first);
    lemma_try_map_error(items, each, first + 1);
}

/// Reading one more item continues from what reading the items before it gave.
pub proof fn lemma_try_map_step<A, B>(
    items: Seq<A>,
    each: spec_fn(A) -> Result<B, ParseError>,
    count: int,
)
    requires
        0 <= count < items.len(),
    ensures
        try_map(items.take(count + 1), each) == match try_map(items.take(count), each) {
            Err(error) => Err(error),
            Ok(done) => match each(items[count]) {
                Err(error) => Err(error),
                Ok(value) => Ok(done.push(value)),
            },
        },
{
    assert(items.take(count + 1).drop_last() =~= items.take(count));
    assert(items.take(count + 1).last() == items[count]);
}

/// A failure among the first items is the failure of the whole list.
pub proof fn lemma_try_map_error<A, B>(
    items: Seq<A>,
    each: spec_fn(A) -> Result<B, ParseError>,
    count: int,
)
    requires
        0 <= count <= items.len(),
        try_map(items.take(count), each) is Err,
    ensures
        try_map(items, each) == try_map(items.take(count), each),
    decreases items.len() - count,
{
    if count == items.len() {
        assert(items.take(count) =~= items);
    } else {
        lemma_try_map_step(items, each, count);
        lemma_try_map_error(items, each, count + 1);
    }
}

/// The model of an outcome: the model of what was read, or the error.
pub open spec fn result_view<T: DeepView>(outcome: Result<T, ParseError>) -> Result<T::V, ParseError> {
    match outcome {
        Ok(value) => Ok(value.deep_view()),
        Err(error) => Err(error),
    }
}

/// Reads a list of strings.
pub fn text_list(node: &Node, list_error: ParseError, item_error: ParseError) -> (texts: Result<
    Vec<String>,
    ParseError,
>)
    ensures
        result_view(texts) == text_list_spec(node@, list_error, item_error),
{
    match node.as_array() {
        None => Err(list_error),
        Some(items) => {
            let mut texts: Vec<String> = Vec::new();
            let mut i: usize = 0;
            proof {
                assert(texts.deep_view() =~= Seq::<Seq<char>>::empty());
            }
            while i < items.len()
                invariant
                    i <= items.len(),
                    node@ == NodeView::Array(items.deep_view()),
                    try_map(items.deep_view().take(i as int), text_or(item_error)) == Ok::<
                        Seq<Seq<char>>,
                        ParseError,
                    >(texts.deep_view()),
                decreases items.len() - i,
            {
                proof {
                    lemma_try_map_step(items.deep_view(), text_or(item_error), i as int);
                    assert(items.deep_view()[i as int] == items[i as int]@);
                }
                match items[i].as_str() {
                    None => {
                        proof {
                            lemma_try_map_error(items.deep_view(), text_or(item_error), i + 1);
                        }
                        return Err(item_error);
                    },
                    Some(text) => {
                        let ghost before = texts;
                        let owned = String::from_str(text);
                        texts.push(owned);
                        proof {
                            lemma_deep_view_push(before, texts, owned);
                        }
                    },
                }
                i += 1;
            }
            proof {
                assert(items.deep_view().take(items.len() as int) == items.deep_view());
            }
            Ok(texts)
        },
    }
}

/// Reads one argument of a follow-up command as a string.
pub fn argument(node: &Node) -> (text: Result<String, ParseError>)
    ensures
        result_view(text) == argument_spec(node@),
{
    match node {
        Node::Text(text) => Ok(text.clone()),
        Node::Integer(number) => Ok(integer_string(*number)),
        Node::Boolean(flag) => Ok(boolean_string(*flag)),
        Node::Float(printed) => Ok(printed.clone()),
        Node::Datetime(printed) => Ok(printed.clone()),
        Node::Array(_) => Err(ParseError::Argument),
        Node::Table(_) => Err(ParseError::Argument),
    }
}

/// Reads one follow-up command.
pub fn command(node: &Node) -> (argv: Result<Vec<String>, ParseError>)
    ensures
        result_view(argv) == command_spec(node@),
{
    let items = match node.as_array() {
        Some(items) => items,
        None => {
            return Err(ParseError::Command);
        },
    };
    let mut argv: Vec<String> = Vec::new();
    let mut i: usize = 0;
    proof {
        assert(argv.deep_view() =~= Seq::<Seq<char>>::empty());
    }
    while i < items.len()
        invariant
            i <= items.len(),
            node@ == NodeView::Array(items.deep_view()),
            try_map(items.deep_view().take(i as int), argument_fn()) == Ok::<
                Seq<Seq<char>>,
                ParseError,
            >(argv.deep_view()),
        decreases items.len() - i,
    {
        proof {
            lemma_try_map_step(items.deep_view(), argument_fn(), i as int);
            assert(items.deep_view()[i as int] == items[i as int]@);
        }
        match argument(&items[i]) {
            Err(error) => {
                proof {
                    lemma_try_map_error(items.deep_view(), argument_fn(), i + 1);
                }
                return Err(error);
            },
            Ok(text) => {
                let ghost before = argv;
                argv.push(text);
                proof {
                    lemma_deep_view_push(before, argv, text);
                }
            },
        }
        i += 1;
    }
    proof {
        assert(items.deep_view().take(items.len() as int) == items.deep_view());
    }
    if argv.len() == 0 {
        Err(ParseError::Command)
    } else {
        Ok(argv)
    }
}

/// Reads the follow-up commands of a record from the items of its `then` list.
pub fn then_list(items: &Vec<Node>) -> (commands: Result<ThenCommands, ParseError>)
    ensures
        result_view(commands) == try_map(items.deep_view(), command_fn()),
        commands matches Ok(read) ==> commands_valid(read.deep_view()),
{
    let mut commands: ThenCommands = Vec::new();
    let mut i: usize = 0;
    proof {
        assert(commands.deep_view() =~= Seq::<Seq<Seq<char>>>::empty());
    }
    while i < items.len()
        invariant
            i <= items.len(),
            try_map(items.deep_view().take(i as int), command_fn()) == Ok::<
                Seq<Seq<Seq<char>>>,
                ParseError,
            >(commands.deep_view()),
            commands_valid(commands.deep_view()),
        decreases items.len() - i,
    {
        proof {
            lemma_try_map_step(items.deep_view(), command_fn(), i as int);
            assert(items.deep_view()[i as int] == items[i as int]@);
        }
        match command(&items[i]) {
            Err(error) => {
                proof {
                    lemma_try_map_error(items.deep_view(), command_fn(), i + 1);
                }
                return Err(error);
            },
            Ok(argv) => {
                let ghost before = commands;
                commands.push(argv);
                proof {
                    lemma_deep_view_push(before, commands, argv);
                }
            },
        }
        i += 1;
    }
    proof {
        assert(items.deep_view().take(items.len() as int) == items.deep_view());
    }
    Ok(commands)
}

/// Reads one dependency record.
pub fn record(node: &Node) -> (module: Result<Module, ParseError>)
    ensures
        result_view(module) == record_spec(node@),
{
    let entries = match node.as_table() {
        Some(entries) => entries,
        None => {
            return Err(ParseError::Record);
        },
    };
    let name = match table_get(entries, "name") {
        Some(found) => match found.as_str() {
            Some(name) => {
                if name.is_empty() {
                    return Err(ParseError::Name);
                }
                String::from_str(name)
            },
            None => {
                return Err(ParseError::Name);
            },
        },
        None => {
            return Err(ParseError::Name);
        },
    };
    let version = match table_get(entries, "version") {
        None => String::from_str("latest"),
        Some(found) => match found.as_str() {
            Some(version) => String::from_str(version),
            None => {
                return Err(ParseError::Version);
            },
        },
    };
    let dev = match table_get(entries, "dev") {
        None => false,
        Some(found) => match found.as_bool() {
            Some(dev) => dev,
            None => {
                return Err(ParseError::Dev);
            },
        },
    };
    let features: Option<Vec<String>> = match table_get(entries, "features") {
        None => None,
        Some(found) => match text_list(found, ParseError::Features, ParseError::Feature) {
            Ok(features) => Some(features),
            Err(error) => {
                return Err(error);
            },
        },
    };
    let then_commands: Option<ThenCommands> = match table_get(entries, "then") {
        None => None,
        Some(found) => match found.as_array() {
            None => {
                return Err(ParseError::Then);
            },
            Some(items) => match then_list(items) {
                Ok(commands) => Some(commands),
                Err(error) => {
                    return Err(error);
                },
            },
        },
    };
    let module = Module::new(name, version, dev, then_commands);
    match features {
        Some(features) => Ok(module.with_features(features)),
        None => Ok(module),
    }
}

/// Reads the group of `ecosystem` from the entries of a `deps` table.
pub fn group(entries: &Vec<(String, Node)>, ecosystem: Ecosystem) -> (modules: Result<
    Option<Vec<Module>>,
    ParseError,
>)
    ensures
        result_view(modules) == group_spec(entries.deep_view(), ecosystem),
{
    let items = match table_get(entries, ecosystem.key()) {
        None => {
            return Ok(None);
        },
        Some(found) => match found.as_array() {
            Some(items) => items,
            None => {
                return Err(ParseError::Group(ecosystem));
            },
        },
    };
    let mut modules: Vec<Module> = Vec::new();
    let mut i: usize = 0;
    proof {
        assert(modules.deep_view() =~= Seq::<ModuleView>::empty());
    }
    while i < items.len()
        invariant
            i <= items.len(),
            lookup(entries.deep_view(), ecosystem.key_spec()) == Some(
                NodeView::Array(items.deep_view()),
            ),
            try_map(items.deep_view().take(i as int), record_fn()) == Ok::<
                Seq<ModuleView>,
                ParseError,
            >(modules.deep_view()),
        decreases items.len() - i,
    {
        proof {
            lemma_try_map_step(items.deep_view(), record_fn(), i as int);
            assert(items.deep_view()[i as int] == items[i as int]@);
        }
        match record(&items[i]) {
            Err(error) => {
                proof {
                    lemma_try_map_error(items.deep_view(), record_fn(), i + 1);
                }
                return Err(error);
            },
            Ok(module) => {
                let ghost before = modules;
                modules.push(module);
                proof {
                    lemma_deep_view_push(before, modules, module);
                }
            },
        }
        i += 1;
    }
    proof {
        assert(items.deep_view().take(items.len() as int) == items.deep_view());
    }
    Ok(Some(modules))
}

/// Resolves a parsed template document into its dependency records.
pub fn resolve_deps(document: &Node) -> (deps: Result<Dependencies, ParseError>)
    ensures
        result_view(deps) == deps_spec(document@),
{
    let top = match document.as_table() {
        Some(top) => top,
        None => {
            return Err(ParseError::Deps);
        },
    };
    let groups = match table_get(top, "deps") {
        Some(found) => match found.as_table() {
            Some(groups) => groups,
            None => {
                return Err(ParseError::Deps);
            },
        },
        None => {
            return Err(ParseError::Deps);
        },
    };
    let npm = match group(groups, Ecosystem::Npm) {
        Ok(npm) => npm,
        Err(error) => {
            return Err(error);
        },
    };
    let cargo = match group(groups, Ecosystem::Cargo) {
        Ok(cargo) => cargo,
        Err(error) => {
            return Err(error);
        },
    };
    let composer = match group(groups, Ecosystem::Composer) {
        Ok(composer) => composer,
        Err(error) => {
            return Err(error);
        },
    };
    Ok(Dependencies { npm, cargo, composer })
}

/// A stack template, read from its TOML text.
#[derive(Debug)]
pub struct TomlTemplate {
    document: Node,
}

impl View for TomlTemplate {
    type V = NodeView;

    closed spec fn view(&self) -> NodeView {
        self.document@
    }
}

impl TomlTemplate {
    /// The template that holds `document`.
    pub fn from_document(document: Node) -> (template: Self)
        ensures
            template@ == document@,
    {
        TomlTemplate { document }
    }

    /// Reads a template from its text. Fails with [`ParseError::Syntax`]
    /// exactly where the text is not a TOML document.
    pub fn parse(text: &str) -> (template: Result<Self, ParseError>)
        ensures
            match template {
                Ok(template) => toml_document(text@) == Some(template@),
                Err(error) => error == ParseError::Syntax && toml_document(text@) is None,
            },
    {
        match read_document(text) {
            Ok(document) => Ok(TomlTemplate { document }),
            Err(_) => Err(ParseError::Syntax),
        }
    }

    /// The parsed document.
    pub fn document(&self) -> (document: &Node)
        ensures
            document@ == self@,
    {
        &self.document
    }

    /// The template's `title`, where it has one that is a string.
    pub fn title(&self) -> (title: Option<&str>)
        ensures
            match title {
                Some(title) => self@ matches NodeView::Table(top) && lookup(top, "title"@) == Some(
                    NodeView::Text(title@),
                ),
                None => !(self@ matches NodeView::Table(top) && lookup(top, "title"@) matches Some(
                    NodeView::Text(_),
                )),
            },
    {
        match self.document.as_table() {
            None => None,
            Some(top) => match table_get(top, "title") {
                None => None,
                Some(found) => found.as_str(),
            },
        }
    }

    /// The dependency records of this template.
    pub fn deps(&self) -> (deps: Result<Dependencies, ParseError>)
        ensures
            result_view(deps) == deps_spec(self@),
    {
        resolve_deps(&self.document)
    }

    /// Reads the dependency records of a template from its text.
    pub fn parse_deps(text: &str) -> (deps: Result<Dependencies, ParseError>)
        ensures
            result_view(deps) == parse_deps_spec(text@),
    {
        match TomlTemplate::parse(text) {
            Err(error) => Err(error),
            Ok(template) => template.deps(),
        }
    }
}

} // verus!
