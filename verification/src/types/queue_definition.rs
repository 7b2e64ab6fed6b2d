//! How a queue is to be declared.
use vstd::prelude::*;

verus! {

/// The name of a queue and the flags of its declaration.
#[derive(Debug, Clone, PartialEq, Eq)]
pub struct QueueDefinition {
    pub queue_name: String,
    pub passive: bool,
    pub durable: bool,
    pub auto_delete: bool,
    pub exclusive: bool,
    pub no_wait: bool,
}

impl QueueDefinition {
    /// A builder with nothing set.
    pub fn builder() -> (r: QueueDefinitionBuilder)
        ensures
            r.queue_name is None,
            r.passive is None,
            r.durable is None,
            r.auto_delete is None,
            r.exclusive is None,
            r.no_wait is None,
    {
        QueueDefinitionBuilder {
            queue_name: None,
            passive: None,
            durable: None,
            auto_delete: None,
            exclusive: None,
            no_wait: None,
        }
    }

    pub fn new(
        queue_name: String,
        passive: bool,
        durable: bool,
        auto_delete: bool,
        exclusive: bool,
        no_wait: bool,
    ) -> (r: Self)
        ensures
            r.queue_name == queue_name,
            r.passive == passive,
            r.durable == durable,
            r.auto_delete == auto_delete,
            r.exclusive == exclusive,
            r.no_wait == no_wait,
    {
        QueueDefinition { queue_name, passive, durable, auto_delete, exclusive, no_wait }
    }
}

/// Collects the parts of a queue definition one by one. What is not set is the empty
/// name, or a flag that is off.
#[derive(Debug, Clone, PartialEq, Eq)]
pub struct QueueDefinitionBuilder {
    pub queue_name: Option<String>,
    pub passive: Option<bool>,
    pub durable: Option<bool>,
    pub auto_delete: Option<bool>,
    pub exclusive: Option<bool>,
    pub no_wait: Option<bool>,
}

/// The flag that was set, or off.
pub open spec fn spec_flag_or_off(flag: Option<bool>) -> bool {
    match flag {
        Some(v) => v,
        None => false,
    }
}

impl QueueDefinitionBuilder {
    /// Sets the name, and leaves the rest as it is.
    pub fn queue_name(self, name: String) -> (r: Self)
        ensures
            r == (QueueDefinitionBuilder { queue_name: Some(name), ..self }),
    {
        QueueDefinitionBuilder { queue_name: Some(name), ..self }
    }

    /// Sets `passive`, and leaves the rest as it is.
    pub fn passive(self, passive: bool) -> (r: Self)
        ensures
            r == (QueueDefinitionBuilder { passive: Some(passive), ..self }),
    {
        QueueDefinitionBuilder { passive: Some(passive), ..self }
    }

    /// Sets `durable`, and leaves the rest as it is.
    pub fn durable(self, durable: bool) -> (r: Self)
        ensures
            r == (QueueDefinitionBuilder { durable: Some(durable), ..self }),
    {
        QueueDefinitionBuilder { durable: Some(durable), ..self }
    }

    /// Sets `auto_delete`, and leaves the rest as it is.
    pub fn auto_delete(self, auto_delete: bool) -> (r: Self)
        ensures
            r == (QueueDefinitionBuilder { auto_delete: Some(auto_delete), ..self }),
    {
        QueueDefinitionBuilder { auto_delete: Some(auto_delete), ..self }
    }

    /// Sets `exclusive`, and leaves the rest as it is.
    pub fn exclusive(self, exclusive: bool) -> (r: Self)
        ensures
            r == (QueueDefinitionBuilder { exclusive: Some(exclusive), ..self }),
    {
        QueueDefinitionBuilder { exclusive: Some(exclusive), ..self }
    }

    /// Sets `no_wait`, and leaves the rest as it is.
    pub fn no_wait(self, no_wait: bool) -> (r: Self)
        ensures
            r == (QueueDefinitionBuilder { no_wait: Some(no_wait), ..self }),
    {
        QueueDefinitionBuilder { no_wait: Some(no_wait), ..self }
    }

    /// The definition that was collected.
    pub fn build(self) -> (r: QueueDefinition)
        ensures
            r.queue_name@ == (match self.queue_name {
                Some(name) => name@,
                None => Seq::<char>::empty(),
            }),
            r.passive == spec_flag_or_off(self.passive),
            r.durable == spec_flag_or_off(self.durable),
            r.auto_delete == spec_flag_or_off(self.auto_delete),
            r.exclusive == spec_flag_or_off(self.exclusive),
            r.no_wait == spec_flag_or_off(self.no_wait),
    {
        QueueDefinition {
            queue_name: match self.queue_name {
                Some(name) => name,
                None => String::new(),
            },
            passive: flag_or_off(self.passive),
            durable: flag_or_off(self.durable),
            auto_delete: flag_or_off(self.auto_delete),
            exclusive: flag_or_off(self.exclusive),
            no_wait: flag_or_off(self.no_wait),
        }
    }
}

fn flag_or_off(flag: Option<bool>) -> (r: bool)
    ensures
        r == spec_flag_or_off(flag),
{
    match flag {
        Some(v) => v,
        None => false,
    }
}

} // verus!
