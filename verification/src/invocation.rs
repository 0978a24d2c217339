//! One external command, described as a value.

use vstd::prelude::*;
use crate::text::{clone_pairs, clone_strings, lemma_deep_view_push};

verus! {

/// An external command: the executable, its arguments and the environment
/// variables set for it. Nothing is interpreted or escaped; the executable is
/// looked up by the operating system when the command is started.
#[derive(Debug, PartialEq, Eq)]
pub struct Invocation {
    pub program: String,
    pub args: Vec<String>,
    pub env: Vec<(String, String)>,
}

/// What an [`Invocation`] says, as sequences of characters.
pub struct InvocationView {
    pub program: Seq<char>,
    pub args: Seq<Seq<char>>,
    pub env: Seq<(Seq<char>, Seq<char>)>,
}

impl View for Invocation {
    type V = InvocationView;

    open spec fn view(&self) -> InvocationView {
        InvocationView {
            program: self.program@,
            args: self.args.deep_view(),
            env: self.env.deep_view(),
        }
    }
}

impl DeepView for Invocation {
    type V = InvocationView;

    open spec fn deep_view(&self) -> InvocationView {
        self@
    }
}

/// The command whose argument vector is `argv`: position 0 names the
/// executable, the rest are its arguments.
pub open spec fn argv_invocation(argv: Seq<Seq<char>>) -> InvocationView {
    InvocationView { program: argv[0], args: argv.subrange(1, argv.len() as int), env: Seq::empty() }
}

impl Invocation {
    /// A command with no environment overrides.
    pub fn new(program: String, args: Vec<String>) -> (inv: Self)
        ensures
            inv@ == (InvocationView {
                program: program@,
                args: args.deep_view(),
                env: Seq::empty(),
            }),
    {
        let env: Vec<(String, String)> = Vec::new();
        assert(env.deep_view() == Seq::<(Seq<char>, Seq<char>)>::empty());
        Invocation { program, args, env }
    }

    /// The command given by a literal argument vector.
    pub fn from_argv(argv: &Vec<String>) -> (inv: Self)
        requires
            argv.len() > 0,
        ensures
            inv@ == argv_invocation(argv.deep_view()),
    {
        let mut args: Vec<String> = Vec::new();
        let mut i: usize = 1;
        while i < argv.len()
            invariant
                1 <= i <= argv.len(),
                args.deep_view() == argv.deep_view().subrange(1, i as int),
            decreases argv.len() - i,
        {
            let ghost before = args;
            args.push(argv[i].clone());
            proof {
                lemma_deep_view_push(before, args, argv[i as int]);
                assert(args.deep_view() == argv.deep_view().subrange(1, i + 1));
            }
            i += 1;
        }
        let env: Vec<(String, String)> = Vec::new();
        assert(env.deep_view() == Seq::<(Seq<char>, Seq<char>)>::empty());
        assert(argv.deep_view().subrange(1, argv.len() as int) == argv.deep_view().subrange(
            1,
            argv.deep_view().len() as int,
        ));
        Invocation { program: argv[0].clone(), args, env }
    }
}

impl Clone for Invocation {
    fn clone(&self) -> (copy: Self)
        ensures
            copy@ == self@,
    {
        Invocation {
            program: self.program.clone(),
            args: clone_strings(&self.args),
            env: clone_pairs(&self.env),
        }
    }
}

/// An owned copy of a list of commands.
pub fn clone_invocations(items: &Vec<Invocation>) -> (copy: Vec<Invocation>)
    ensures
        copy.deep_view() == items.deep_view(),
{
    let mut copy: Vec<Invocation> = Vec::new();
    let mut i: usize = 0;
    while i < items.len()
        invariant
            i <= items.len(),
            copy.deep_view() == items.deep_view().take(i as int),
        decreases items.len() - i,
    {
        let ghost before = copy;
        let invocation = items[i].clone();
        copy.push(invocation);
        proof {
            lemma_deep_view_push(before, copy, invocation);
            assert(copy.deep_view() == items.deep_view().take(i + 1));
        }
        i += 1;
    }
    proof {
        assert(items.deep_view().take(items.len() as int) == items.deep_view());
    }
    copy
}

} // verus!
