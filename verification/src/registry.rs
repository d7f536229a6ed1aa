//! The registry of task handlers: one handler per task tag.
//!
//! The registry is filled at startup, before the engine starts, and only
//! read after that. It comes with the built-in `print` handler. What a
//! handler does is the caller's business: the registry keeps it under the
//! tag it claims and hands it back on lookup.

use vstd::prelude::*;
use vstd::string::*;
use crate::job::Job;
use crate::keyed::StringMap;

verus! {

/// The built-in handler that prints a message.
#[derive(Debug, Clone, Copy, PartialEq, Eq, Structural)]
pub struct PrintTask;

/// The handler that runs a data factory pipeline to its end.
#[derive(Debug, Clone, Copy, PartialEq, Eq, Structural)]
pub struct AdfTask;

impl PrintTask {
    /// The tag this handler claims.
    pub fn task_type(&self) -> (tag: &'static str)
        ensures
            tag@ == "print"@,
    {
        "print"
    }
}

impl AdfTask {
    /// The tag this handler claims.
    pub fn task_type(&self) -> (tag: &'static str)
        ensures
            tag@ == "adf_pipeline"@,
    {
        "adf_pipeline"
    }
}

/// Handlers by tag.
pub struct TaskRegistry<H> {
    handlers: StringMap<H>,
}

impl<H> TaskRegistry<H> {
    /// The registry is in order. Every registry that this module hands out
    /// is, and every method keeps it so.
    pub closed spec fn is_valid(self) -> bool {
        self.handlers.is_valid()
    }

    /// The registry as a map from tags to handlers.
    pub closed spec fn view(self) -> Map<Seq<char>, H> {
        self.handlers@
    }

    /// The tags under which a new registry holds its built-in handler.
    pub open spec fn built_in(print: H) -> Map<Seq<char>, H> {
        Map::<Seq<char>, H>::empty().insert("print"@, print)
    }

    /// A registry that holds the built-in handlers: `print`, under the tag
    /// `print`. Further handlers are registered before the engine starts.
    pub fn new(print: H) -> (registry: TaskRegistry<H>)
        ensures
            registry.is_valid(),
            registry@ == Map::<Seq<char>, H>::empty().insert("print"@, print),
            registry@ == TaskRegistry::built_in(print),
    {
        let mut registry = TaskRegistry { handlers: StringMap::new() };
        registry.register_builtin(print);
        registry
    }

    /// Registers the built-in handlers.
    fn register_builtin(&mut self, print: H)
        requires
            old(self).is_valid(),
        ensures
            final(self).is_valid(),
            final(self)@ == old(self)@.insert("print"@, print),
    {
        self.register(PrintTask.task_type(), print);
    }

    /// Registers `handler` under `tag`. A handler registered earlier under
    /// the same tag is replaced.
    pub fn register(&mut self, tag: &str, handler: H)
        requires
            old(self).is_valid(),
        ensures
            final(self).is_valid(),
            final(self)@ == old(self)@.insert(tag@, handler),
    {
        let _ = self.handlers.insert(tag, handler);
    }

    /// The handler registered under `tag`; `None` for a tag that no handler
    /// claims.
    pub fn get(&self, tag: &str) -> (handler: Option<&H>)
        requires
            self.is_valid(),
        ensures
            match handler {
                Some(h) => self@.contains_key(tag@) && *h == self@[tag@],
                None => !self@.contains_key(tag@),
            },
    {
        self.handlers.get(tag)
    }

    /// The handler for a job: the one registered under the tag of the job's
    /// payload.
    pub fn handler_for(&self, job: &Job) -> (handler: Option<&H>)
        requires
            self.is_valid(),
        ensures
            match handler {
                Some(h) => self@.contains_key(job@.task_type.tag()) && *h == self@[job@.task_type.tag()],
                None => !self@.contains_key(job@.task_type.tag()),
            },
    {
        self.handlers.get(job.task_type.task_type_name())
    }

    /// One line for each registered tag, `Task Type: <tag>`, for the log.
    pub fn print_all_handlers(&self) -> (lines: Vec<String>)
        requires
            self.is_valid(),
        ensures
            forall|i: int|
                0 <= i < lines@.len() ==> (#[trigger] lines@[i])@ == "Task Type: "@
                    + lines@[i]@.skip(11) && self@.contains_key(lines@[i]@.skip(11)),
            forall|tag: Seq<char>|
                self@.contains_key(tag) ==> exists|i: int|
                    0 <= i < lines@.len() && (#[trigger] lines@[i])@ == "Task Type: "@ + tag,
            lines@.len() == self@.dom().len(),
    {
        let tags = self.handlers.keys();
        let count = self.handlers.len();
        let mut lines: Vec<String> = Vec::new();
        let mut i: usize = 0;
        while i < tags.len()
            invariant
                i <= tags@.len(),
                lines@.len() == i,
                forall|j: int| 0 <= j < i ==> (#[trigger] lines@[j])@ == "Task Type: "@ + tags@[j]@,
            decreases tags@.len() - i,
        {
            let mut line = String::from_str("Task Type: ");
            line.append(tags[i].as_str());
            lines.push(line);
            i = i + 1;
        }
        proof {
            reveal_strlit("Task Type: ");
            assert forall|j: int| 0 <= j < lines@.len() implies (#[trigger] lines@[j])@
                == "Task Type: "@ + lines@[j]@.skip(11) && self@.contains_key(
                lines@[j]@.skip(11),
            ) by {
                assert(self@.contains_key(tags@[j]@));
                assert(lines@[j]@.skip(11) =~= tags@[j]@);
            }
            assert forall|tag: Seq<char>| self@.contains_key(tag) implies exists|j: int|
                0 <= j < lines@.len() && (#[trigger] lines@[j])@ == "Task Type: "@ + tag by {
                let k = choose|k: int| 0 <= k < tags@.len() && (#[trigger] tags@[k])@ == tag;
                assert(lines@[k]@ == "Task Type: "@ + tag);
            }
            lemma_distinct_keys_count(tags@, self@.dom());
        }
        lines
    }
}

/// The registry after a run of registrations: each handler under its tag,
/// a later one in place of an earlier one with the same tag.
pub open spec fn registered<H>(start: Map<Seq<char>, H>, entries: Seq<(Seq<char>, H)>) -> Map<
    Seq<char>,
    H,
>
    decreases entries.len(),
{
    if entries.len() == 0 {
        start
    } else {
        registered(start, entries.drop_last()).insert(entries.last().0, entries.last().1)
    }
}

/// The position of the last entry registered under `tag`, if there is one.
pub open spec fn last_under<H>(entries: Seq<(Seq<char>, H)>, tag: Seq<char>) -> Option<int>
    decreases entries.len(),
{
    if entries.len() == 0 {
        None
    } else if entries.last().0 == tag {
        Some(entries.len() - 1)
    } else {
        last_under(entries.drop_last(), tag)
    }
}

/// Lookup after registration: in a new registry to which handlers have been
/// added, a tag finds the handler that was registered last under it; the tag
/// `print` finds the built-in handler where none was registered over it;
/// every other tag finds nothing.
pub proof fn lemma_lookup_after_registration<H>(
    print: H,
    entries: Seq<(Seq<char>, H)>,
    tag: Seq<char>,
)
    ensures
        ({
            let registry = registered(TaskRegistry::built_in(print), entries);
            match last_under(entries, tag) {
                Some(i) => 0 <= i < entries.len() && entries[i].0 == tag && registry.contains_key(
                    tag,
                ) && registry[tag] == entries[i].1,
                None => if tag == "print"@ {
                    registry.contains_key(tag) && registry[tag] == print
                } else {
                    !registry.contains_key(tag)
                },
            }
        }),
    decreases entries.len(),
{
    if entries.len() > 0 {
        lemma_lookup_after_registration(print, entries.drop_last(), tag);
    }
}

/// A list that names each member of a finite set once is as long as the set
/// is large.
pub proof fn lemma_distinct_keys_count(keys: Seq<String>, dom: Set<Seq<char>>)
    requires
        dom.finite(),
        forall|i: int| 0 <= i < keys.len() ==> dom.contains(#[trigger] keys[i]@),
        forall|key: Seq<char>|
            dom.contains(key) ==> exists|i: int| 0 <= i < keys.len() && (#[trigger] keys[i])@ == key,
        forall|i: int, j: int|
            0 <= i < j < keys.len() ==> (#[trigger] keys[i])@ != (#[trigger] keys[j])@,
    ensures
        keys.len() == dom.len(),
    decreases keys.len(),
{
    if keys.len() == 0 {
        assert(dom =~= Set::<Seq<char>>::empty());
    } else {
        let last = keys.last()@;
        let rest = keys.drop_last();
        let smaller = dom.remove(last);
        assert forall|i: int| 0 <= i < rest.len() implies smaller.contains(#[trigger] rest[i]@) by {
            assert(rest[i] == keys[i]);
            assert(keys[i]@ != keys[keys.len() - 1]@);
        }
        assert forall|key: Seq<char>| smaller.contains(key) implies exists|i: int|
            0 <= i < rest.len() && (#[trigger] rest[i])@ == key by {
            let k = choose|k: int| 0 <= k < keys.len() && (#[trigger] keys[k])@ == key;
            assert(k < keys.len() - 1);
            assert(rest[k]@ == key);
        }
        assert forall|i: int, j: int| 0 <= i < j < rest.len() implies (#[trigger] rest[i])@ != (
        #[trigger] rest[j])@ by {
            assert(rest[i] == keys[i] && rest[j] == keys[j]);
        }
        lemma_distinct_keys_count(rest, smaller);
        assert(dom.contains(keys[keys.len() - 1]@));
    }
}

} // verus!
