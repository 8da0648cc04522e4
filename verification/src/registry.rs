//! The command registry: a mapping from command names to handler capabilities,
//! filled once at startup and read-only afterwards.

use vstd::prelude::*;
use vstd::string::*;
use crate::error::{ErrorInfo, ErrorKind, ErrorView};

verus! {

/// The capability that a command name is bound to. Handlers are tagged rather
/// than opaque callables, so that the binding is settled when the command is
/// registered and not at each call.
#[derive(Clone, Copy, Debug, PartialEq, Eq, Structural)]
pub enum Handler {
    /// Takes a name, answers with a greeting.
    Greet,
    /// Takes nothing, answers with the application's version.
    AppVersion,
    /// Takes a URL and hands it to the platform's default opener.
    OpenExternal,
    /// Answers with its argument.
    Echo,
}

/// A command name together with the handler it is bound to.
#[derive(Debug, PartialEq, Eq)]
pub struct CommandDescriptor {
    pub name: String,
    pub handler: Handler,
}

/// The mapping that a sequence of descriptors stands for.
pub open spec fn table(entries: Seq<CommandDescriptor>) -> Map<Seq<char>, Handler>
    decreases entries.len(),
{
    if entries.len() == 0 {
        Map::empty()
    } else {
        table(entries.drop_last()).insert(entries.last().name@, entries.last().handler)
    }
}

/// No two descriptors carry the same name.
pub open spec fn distinct_names(entries: Seq<CommandDescriptor>) -> bool {
    forall|i: int, j: int|
        0 <= i < j < entries.len() ==> #[trigger] entries[i].name@ != #[trigger] entries[j].name@
}

/// A name that no descriptor carries is not bound.
pub proof fn lemma_table_absent(entries: Seq<CommandDescriptor>, name: Seq<char>)
    requires
        forall|i: int| 0 <= i < entries.len() ==> (#[trigger] entries[i]).name@ != name,
    ensures
        !table(entries).contains_key(name),
    decreases entries.len(),
{
    if entries.len() > 0 {
        let front = entries.drop_last();
        assert forall|i: int| 0 <= i < front.len() implies (#[trigger] front[i]).name@ != name by {
            assert(front[i] == entries[i]);
        }
        lemma_table_absent(front, name);
        assert(entries.last() == entries[entries.len() - 1]);
    }
}

/// Where names are distinct, each descriptor's name is bound to its handler.
pub proof fn lemma_table_lookup(entries: Seq<CommandDescriptor>, i: int)
    requires
        distinct_names(entries),
        0 <= i < entries.len(),
    ensures
        table(entries).contains_key(entries[i].name@),
        table(entries)[entries[i].name@] == entries[i].handler,
    decreases entries.len(),
{
    let front = entries.drop_last();
    if i < entries.len() - 1 {
        assert forall|a: int, b: int| 0 <= a < b < front.len() implies #[trigger] front[a].name@
            != #[trigger] front[b].name@ by {
            assert(front[a] == entries[a]);
            assert(front[b] == entries[b]);
        }
        lemma_table_lookup(front, i);
        assert(front[i] == entries[i]);
        assert(entries[i].name@ != entries[entries.len() - 1].name@);
    }
}

/// Where names are distinct, there are as many bound names as descriptors.
pub proof fn lemma_table_size(entries: Seq<CommandDescriptor>)
    requires
        distinct_names(entries),
    ensures
        table(entries).dom().finite(),
        table(entries).dom().len() == entries.len(),
    decreases entries.len(),
{
    if entries.len() > 0 {
        let front = entries.drop_last();
        assert forall|a: int, b: int| 0 <= a < b < front.len() implies #[trigger] front[a].name@
            != #[trigger] front[b].name@ by {
            assert(front[a] == entries[a]);
            assert(front[b] == entries[b]);
        }
        lemma_table_size(front);
        assert forall|i: int| 0 <= i < front.len() implies (#[trigger] front[i]).name@
            != entries.last().name@ by {
            assert(front[i] == entries[i]);
            assert(entries[i].name@ != entries[entries.len() - 1].name@);
        }
        lemma_table_absent(front, entries.last().name@);
        assert(table(entries).dom() =~= table(front).dom().insert(entries.last().name@));
    }
}

/// The error that a second registration of `name` is refused with.
pub open spec fn duplicate(name: Seq<char>) -> ErrorView {
    ErrorView { kind: ErrorKind::DuplicateCommand, message: name }
}

/// The error that resolving an absent `name` ends in.
pub open spec fn unknown(name: Seq<char>) -> ErrorView {
    ErrorView { kind: ErrorKind::UnknownCommand, message: name }
}

/// Whether registering `name` succeeds on a registry that holds `before`.
pub open spec fn register_outcome(before: Map<Seq<char>, Handler>, name: Seq<char>) -> Result<
    (),
    ErrorView,
> {
    if before.contains_key(name) {
        Err(duplicate(name))
    } else {
        Ok(())
    }
}

/// What a registry that held `before` holds once `name` was registered: the
/// new binding where the name was free, and `before` where it was not.
pub open spec fn after_register(
    before: Map<Seq<char>, Handler>,
    name: Seq<char>,
    handler: Handler,
) -> Map<Seq<char>, Handler> {
    if before.contains_key(name) {
        before
    } else {
        before.insert(name, handler)
    }
}

/// What resolving `name` gives on a registry that holds `bound`.
pub open spec fn resolve_outcome(bound: Map<Seq<char>, Handler>, name: Seq<char>) -> Result<
    Handler,
    ErrorView,
> {
    if bound.contains_key(name) {
        Ok(bound[name])
    } else {
        Err(unknown(name))
    }
}

/// A registered name resolves to exactly the handler it was registered with,
/// registering other names afterwards does not change that, and registering
/// the same name a second time is refused and changes nothing.
pub proof fn lemma_registered_name_resolves(
    before: Map<Seq<char>, Handler>,
    name: Seq<char>,
    handler: Handler,
    later: Seq<char>,
    later_handler: Handler,
)
    requires
        register_outcome(before, name) is Ok,
    ensures
        resolve_outcome(after_register(before, name, handler), name) == Ok::<Handler, ErrorView>(
            handler,
        ),
        resolve_outcome(
            after_register(after_register(before, name, handler), later, later_handler),
            name,
        ) == Ok::<Handler, ErrorView>(handler),
        register_outcome(after_register(before, name, handler), name) == Err::<(), ErrorView>(
            duplicate(name),
        ),
        after_register(after_register(before, name, handler), name, later_handler)
            == after_register(before, name, handler),
{
}

/// The registry. Its view is the mapping from names to handlers.
pub struct CommandRegistry {
    entries: Vec<CommandDescriptor>,
}

impl View for CommandRegistry {
    type V = Map<Seq<char>, Handler>;

    closed spec fn view(&self) -> Map<Seq<char>, Handler> {
        table(self.entries@)
    }
}

impl CommandDescriptor {
    pub fn new(name: &str, handler: Handler) -> (d: CommandDescriptor)
        ensures
            d.name@ == name@,
            d.handler == handler,
    {
        CommandDescriptor { name: String::from_str(name), handler }
    }
}

impl CommandRegistry {
    /// The registry's invariant: every name is bound once.
    pub closed spec fn wf(&self) -> bool {
        distinct_names(self.entries@)
    }

    pub fn new() -> (r: CommandRegistry)
        ensures
            r.wf(),
            r@ == Map::<Seq<char>, Handler>::empty(),
    {
        CommandRegistry { entries: Vec::new() }
    }

    /// The position of `name` among the entries, if it is bound.
    fn position(&self, name: &String) -> (at: Option<usize>)
        requires
            self.wf(),
        ensures
            at.is_some() <==> self@.contains_key(name@),
            at.is_some() ==> at.unwrap() < self.entries@.len()
                && self.entries@[at.unwrap() as int].name@ == name@
                && self@[name@] == self.entries@[at.unwrap() as int].handler,
    {
        let mut i: usize = 0;
        while i < self.entries.len()
            invariant
                i <= self.entries@.len(),
                self.wf(),
                forall|k: int| 0 <= k < i ==> (#[trigger] self.entries@[k]).name@ != name@,
            decreases self.entries@.len() - i,
        {
            if self.entries[i].name == *name {
                proof {
                    lemma_table_lookup(self.entries@, i as int);
                }
                return Some(i);
            }
            i += 1;
        }
        proof {
            lemma_table_absent(self.entries@, name@);
        }
        None
    }

    /// Binds `name` to `handler`. A name that is already bound is refused and
    /// the registry stays as it was.
    pub fn register(&mut self, name: &str, handler: Handler) -> (r: Result<(), ErrorInfo>)
        requires
            old(self).wf(),
        ensures
            final(self).wf(),
            final(self)@ == after_register(old(self)@, name@, handler),
            r is Ok <==> !old(self)@.contains_key(name@),
            r matches Err(e) ==> register_outcome(old(self)@, name@) == Err::<(), ErrorView>(e@),
    {
        let key = String::from_str(name);
        match self.position(&key) {
            Some(_) => Err(ErrorInfo { kind: ErrorKind::DuplicateCommand, message: key }),
            None => {
                proof {
                    let before = self.entries@;
                    assert forall|i: int| 0 <= i < before.len() implies (#[trigger] before[i]).name@
                        != name@ by {
                        if before[i].name@ == name@ {
                            lemma_table_lookup(before, i);
                        }
                    }
                }
                let ghost before = self.entries@;
                self.entries.push(CommandDescriptor { name: key, handler });
                proof {
                    assert(self.entries@.drop_last() =~= before);
                }
                Ok(())
            },
        }
    }

    /// The handler bound to `name`.
    pub fn resolve(&self, name: &str) -> (r: Result<Handler, ErrorInfo>)
        requires
            self.wf(),
        ensures
            r is Ok <==> self@.contains_key(name@),
            r matches Ok(handler) ==> resolve_outcome(self@, name@) == Ok::<Handler, ErrorView>(
                handler,
            ),
            r matches Err(e) ==> resolve_outcome(self@, name@) == Err::<Handler, ErrorView>(e@),
    {
        let key = String::from_str(name);
        match self.position(&key) {
            Some(at) => Ok(self.entries[at].handler),
            None => Err(ErrorInfo { kind: ErrorKind::UnknownCommand, message: key }),
        }
    }

    pub fn contains(&self, name: &str) -> (b: bool)
        requires
            self.wf(),
        ensures
            b == self@.contains_key(name@),
    {
        let key = String::from_str(name);
        self.position(&key).is_some()
    }

    /// How many commands are bound.
    pub fn len(&self) -> (n: usize)
        requires
            self.wf(),
        ensures
            self@.dom().finite(),
            n == self@.dom().len(),
    {
        proof {
            lemma_table_size(self.entries@);
        }
        self.entries.len()
    }

    pub fn is_empty(&self) -> (b: bool)
        requires
            self.wf(),
        ensures
            b == (self@ == Map::<Seq<char>, Handler>::empty()),
    {
        proof {
            lemma_table_size(self.entries@);
            if self.entries@.len() == 0 {
            } else {
                lemma_table_lookup(self.entries@, 0);
            }
        }
        self.entries.len() == 0
    }
}

} // verus!
