use crate::registry::{ArgValue, CommandDescriptor, CommandId, HandlerKind};
use vstd::prelude::*;

verus! {

/// The one synchronous handler: replies at once, whatever the arguments.
pub fn run(_options: &Vec<ArgValue>) -> (r: String)
    ensures
        r@ == "Hey, I'm alive!"@,
{
    String::from_str("Hey, I'm alive!")
}

/// The descriptor the ping command is registered under.
pub fn register() -> (r: CommandDescriptor)
    ensures
        r.id == CommandId::Ping,
        r.kind == HandlerKind::Immediate,
        r.name@ == "ping"@,
        r.description@ == "Ping me!"@,
        r.params@.len() == 0,
{
    CommandDescriptor {
        id: CommandId::Ping,
        kind: HandlerKind::Immediate,
        name: String::from_str("ping"),
        description: String::from_str("Ping me!"),
        params: Vec::new(),
    }
}

} // verus!
