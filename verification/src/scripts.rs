//! Named run-scripts and the commands that write them into a manifest.

use vstd::prelude::*;
use crate::ecosystem::Ecosystem;
use crate::invocation::{Invocation, InvocationView};
use crate::text::{lemma_deep_view_push, same_text};

verus! {

/// No two entries share a name.
pub open spec fn names_distinct(entries: Seq<(Seq<char>, Seq<char>)>) -> bool {
    forall|i: int, j: int|
        0 <= i < j < entries.len() ==> (#[trigger] entries[i]).0 != (#[trigger] entries[j]).0
}

/// Some entry carries `name`.
pub open spec fn has_name(entries: Seq<(Seq<char>, Seq<char>)>, name: Seq<char>) -> bool {
    exists|i: int| 0 <= i < entries.len() && (#[trigger] entries[i]).0 == name
}

/// The place of an entry that carries `name`.
pub open spec fn index_of_name(entries: Seq<(Seq<char>, Seq<char>)>, name: Seq<char>) -> int {
    choose|i: int| 0 <= i < entries.len() && (#[trigger] entries[i]).0 == name
}

/// Scripts by name, in the order their names were first inserted. A name
/// occurs once.
#[derive(Debug)]
pub struct ScriptMap {
    entries: Vec<(String, String)>,
}

impl View for ScriptMap {
    type V = Seq<(Seq<char>, Seq<char>)>;

    closed spec fn view(&self) -> Seq<(Seq<char>, Seq<char>)> {
        self.entries.deep_view()
    }
}

impl DeepView for ScriptMap {
    type V = Seq<(Seq<char>, Seq<char>)>;

    open spec fn deep_view(&self) -> Seq<(Seq<char>, Seq<char>)> {
        self@
    }
}

impl ScriptMap {
    #[verifier::type_invariant]
    spec fn inv(self) -> bool {
        names_distinct(self.entries.deep_view())
    }

    /// A map without scripts.
    pub fn new() -> (scripts: Self)
        ensures
            scripts@ == Seq::<(Seq<char>, Seq<char>)>::empty(),
    {
        let entries: Vec<(String, String)> = Vec::new();
        proof {
            assert(entries.deep_view() =~= Seq::<(Seq<char>, Seq<char>)>::empty());
        }
        ScriptMap { entries }
    }

    /// The number of scripts.
    pub fn len(&self) -> (count: usize)
        ensures
            count == self@.len(),
    {
        self.entries.len()
    }

    /// Where `name` stands, if it is held.
    fn find(&self, name: &str) -> (found: Option<usize>)
        ensures
            names_distinct(self@),
            match found {
                Some(index) => index < self@.len() && self@[index as int].0 == name@ && has_name(
                    self@,
                    name@,
                ) && index_of_name(self@, name@) == index,
                None => !has_name(self@, name@),
            },
    {
        proof {
            use_type_invariant(self);
        }
        let mut i: usize = 0;
        while i < self.entries.len()
            invariant
                i <= self.entries.len(),
                names_distinct(self.entries.deep_view()),
                forall|j: int| 0 <= j < i ==> (#[trigger] self.entries.deep_view()[j]).0 != name@,
            decreases self.entries.len() - i,
        {
            if same_text(self.entries[i].0.as_str(), name) {
                proof {
                    let entries = self.entries.deep_view();
                    assert(entries[i as int].0 == name@);
                    let chosen = index_of_name(entries, name@);
                    assert(entries[chosen].0 == name@);
                    if chosen < i {
                        assert(entries[chosen].0 != entries[i as int].0);
                    }
                    if i < chosen {
                        assert(entries[i as int].0 != entries[chosen].0);
                    }
                }
                return Some(i);
            }
            i += 1;
        }
        None
    }

    /// The body of the script called `name`.
    pub fn get(&self, name: &str) -> (body: Option<&str>)
        ensures
            match body {
                Some(body) => has_name(self@, name@) && self@[index_of_name(self@, name@)].1
                    == body@,
                None => !has_name(self@, name@),
            },
    {
        match self.find(name) {
            Some(index) => Some(self.entries[index].1.as_str()),
            None => None,
        }
    }

    /// Binds `name` to `body`: in the place of the script that carried the
    /// name, or else behind the scripts already held.
    pub fn insert(&mut self, name: String, body: String)
        ensures
            has_name(old(self)@, name@) ==> final(self)@ == old(self)@.update(
                index_of_name(old(self)@, name@),
                (name@, body@),
            ),
            !has_name(old(self)@, name@) ==> final(self)@ == old(self)@.push((name@, body@)),
            names_distinct(old(self)@),
            names_distinct(final(self)@),
    {
        let found = self.find(name.as_str());
        let mut entries: Vec<(String, String)> = Vec::new();
        proof {
            assert(entries.deep_view() =~= Seq::<(Seq<char>, Seq<char>)>::empty());
        }
        core::mem::swap(&mut self.entries, &mut entries);
        let ghost before = entries;
        match found {
            Some(index) => {
                entries.set(index, (name, body));
                proof {
                    let old_entries = before.deep_view();
                    let new_entries = entries.deep_view();
                    assert(new_entries =~= old_entries.update(index as int, (name@, body@)));
                    assert forall|i: int, j: int| 0 <= i < j < new_entries.len() implies (
                    #[trigger] new_entries[i]).0 != (#[trigger] new_entries[j]).0 by {
                        assert(old_entries[i].0 != old_entries[j].0);
                    }
                }
            },
            None => {
                let entry = (name, body);
                entries.push(entry);
                proof {
                    lemma_deep_view_push(before, entries, entry);
                    let old_entries = before.deep_view();
                    let new_entries = entries.deep_view();
                    assert forall|i: int, j: int| 0 <= i < j < new_entries.len() implies (
                    #[trigger] new_entries[i]).0 != (#[trigger] new_entries[j]).0 by {
                        if j < old_entries.len() {
                            assert(old_entries[i].0 != old_entries[j].0);
                        } else {
                            assert(old_entries[i].0 != name@);
                        }
                    }
                }
            },
        }
        self.entries = entries;
    }

    /// The scripts in order, each a name and a body.
    pub fn entries(&self) -> (entries: &Vec<(String, String)>)
        ensures
            entries.deep_view() == self@,
            names_distinct(self@),
    {
        proof {
            use_type_invariant(self);
        }
        &self.entries
    }
}

/// The command that binds one script name to its body in the npm-family
/// manifest. The body is taken as written.
pub open spec fn npm_script_spec(entry: (Seq<char>, Seq<char>)) -> InvocationView {
    InvocationView {
        program: "npm"@,
        args: seq!["pkg"@, "set"@, "scripts."@ + entry.0 + "="@ + entry.1],
        env: Seq::empty(),
    }
}

/// The command that binds one script name to its body in the composer
/// manifest. The body is taken as written.
pub open spec fn composer_script_spec(entry: (Seq<char>, Seq<char>)) -> InvocationView {
    InvocationView {
        program: "composer"@,
        args: seq!["config"@, "--"@, "scripts."@ + entry.0, entry.1],
        env: Seq::empty(),
    }
}

/// Whether manifests of `ecosystem` hold named scripts.
pub open spec fn supports_scripts(ecosystem: Ecosystem) -> bool {
    ecosystem != Ecosystem::Cargo
}

/// The command that binds one script in a manifest of `ecosystem`.
pub open spec fn script_spec(ecosystem: Ecosystem, entry: (Seq<char>, Seq<char>)) -> InvocationView {
    match ecosystem {
        Ecosystem::Composer => composer_script_spec(entry),
        _ => npm_script_spec(entry),
    }
}

/// [`script_spec`] of an ecosystem as a function value.
pub open spec fn script_fn(ecosystem: Ecosystem) -> spec_fn((Seq<char>, Seq<char>)) -> InvocationView {
    |entry: (Seq<char>, Seq<char>)| script_spec(ecosystem, entry)
}

/// One command per script, in the order of the map; none for an ecosystem
/// without named scripts or without a script map.
pub open spec fn scripts_plan_spec(
    ecosystem: Ecosystem,
    scripts: Option<Seq<(Seq<char>, Seq<char>)>>,
) -> Seq<InvocationView> {
    match scripts {
        Some(entries) if supports_scripts(ecosystem) => entries.map_values(script_fn(ecosystem)),
        _ => Seq::empty(),
    }
}

/// The command that binds `name` to `body` in a manifest of `ecosystem`.
pub fn script_invocation(ecosystem: Ecosystem, name: &str, body: &str) -> (invocation: Invocation)
    requires
        supports_scripts(ecosystem),
    ensures
        invocation@ == script_spec(ecosystem, (name@, body@)),
{
    let mut args: Vec<String> = Vec::new();
    match ecosystem {
        Ecosystem::Composer => {
            args.push(String::from_str("config"));
            args.push(String::from_str("--"));
            args.push(String::from_str("scripts.").concat(name));
            args.push(String::from_str(body));
            let invocation = Invocation::new(String::from_str("composer"), args);
            proof {
                assert(invocation@.args =~= composer_script_spec((name@, body@)).args);
            }
            invocation
        },
        _ => {
            args.push(String::from_str("pkg"));
            args.push(String::from_str("set"));
            args.push(String::from_str("scripts.").concat(name).concat("=").concat(body));
            let invocation = Invocation::new(String::from_str("npm"), args);
            proof {
                assert(invocation@.args =~= npm_script_spec((name@, body@)).args);
            }
            invocation
        },
    }
}

/// The commands that write `scripts` into the manifest of `ecosystem`.
pub fn scripts_plan(ecosystem: Ecosystem, scripts: &Option<ScriptMap>) -> (invocations: Vec<
    Invocation,
>)
    ensures
        invocations.deep_view() == scripts_plan_spec(ecosystem, scripts.deep_view()),
{
    let mut invocations: Vec<Invocation> = Vec::new();
    proof {
        assert(invocations.deep_view() =~= Seq::<InvocationView>::empty());
    }
    match ecosystem {
        Ecosystem::Cargo => {
            return invocations;
        },
        _ => {},
    }
    match scripts {
        None => {},
        Some(map) => {
            let entries = map.entries();
            let mut i: usize = 0;
            proof {
                assert(entries.deep_view().take(0).map_values(script_fn(ecosystem)) =~= Seq::<
                    InvocationView,
                >::empty());
            }
            while i < entries.len()
                invariant
                    i <= entries.len(),
                    supports_scripts(ecosystem),
                    invocations.deep_view() == entries.deep_view().take(i as int).map_values(
                        script_fn(ecosystem),
                    ),
                decreases entries.len() - i,
            {
                let ghost before = invocations;
                let invocation = script_invocation(
                    ecosystem,
                    entries[i].0.as_str(),
                    entries[i].1.as_str(),
                );
                invocations.push(invocation);
                proof {
                    lemma_deep_view_push(before, invocations, invocation);
                    assert(entries.deep_view()[i as int] == (entries[i as int].0@, entries[i as int].1@));
                    assert(invocations.deep_view() =~= entries.deep_view().take(i + 1).map_values(
                        script_fn(ecosystem),
                    ));
                }
                i += 1;
            }
            proof {
                assert(entries.deep_view().take(entries.len() as int) == entries.deep_view());
            }
        },
    }
    invocations
}

} // verus!
