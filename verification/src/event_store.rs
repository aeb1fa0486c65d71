//! The names of the streams of an event store that keeps one stream for
//! each context and one for each entity of a context, and the errors that a
//! command meets before any event is written.

use vstd::prelude::*;

verus! {

/// An event that can name its kind.
pub trait Event {
    fn event_type(&self) -> String;
}

/// A command that broke a rule of its context: no event came of it.
#[derive(Debug)]
pub enum CommmandInvariantError {
    /// What the context has to say of the rule that was broken.
    CommandInvariant(String),
}

/// An error of a context that can be reported as a broken rule.
pub trait ToCommandInvariantError {
    fn to_command_invariant_error(&self) -> CommmandInvariantError;
}

/// The name of the stream of the entity `id` of the context `context`
/// (`Some`), or of the stream of the whole context (`None`), which in a
/// store for tests is set apart by the prefix `test_`.
pub open spec fn spec_stream_id(is_test: bool, context: Seq<char>, id: Option<Seq<char>>) -> Seq<
    char,
> {
    match id {
        Some(entity) => context + seq!['/'] + entity,
        None => if is_test {
            seq!['t', 'e', 's', 't', '_'] + context
        } else {
            context
        },
    }
}

/// The name of the stream of an entity of a context, or of the context.
pub fn stream_id(is_test: bool, context: &str, id: Option<&str>) -> (name: String)
    ensures
        name@ == spec_stream_id(
            is_test,
            context@,
            match id {
                Some(entity) => Some(entity@),
                None => None,
            },
        ),
{
    proof {
        reveal_strlit("/");
        reveal_strlit("test_");
        reveal_strlit("");
        assert("/"@ =~= seq!['/']);
        assert("test_"@ =~= seq!['t', 'e', 's', 't', '_']);
        assert(""@ =~= Seq::<char>::empty());
    }
    match id {
        Some(entity) => {
            let name = String::from_str(context);
            let name = name.concat("/");
            name.concat(entity)
        },
        None => {
            let prefix = if is_test {
                "test_"
            } else {
                ""
            };
            let name = String::from_str(prefix);
            let name = name.concat(context);
            proof {
                assert(Seq::<char>::empty() + context@ =~= context@);
            }
            name
        },
    }
}

} // verus!
