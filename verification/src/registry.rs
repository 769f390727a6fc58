use crate::text::str_eq;
use vstd::prelude::*;

verus! {

/// Which routing path a command's handler takes: an immediate reply, or an
/// acknowledgment now and an edit later.
#[derive(Clone, Copy, Debug, PartialEq, Eq, Structural)]
pub enum HandlerKind {
    Immediate,
    Deferred,
}

/// Reference to the one handler a registered command is bound to.
#[derive(Clone, Copy, Debug, PartialEq, Eq, Structural)]
pub enum CommandId {
    Ping,
    Alarm,
    Wallpaper,
}

/// Semantic type of one declared parameter.
#[derive(Clone, Copy, Debug, PartialEq, Eq, Structural)]
pub enum ParamKind {
    Integer,
    Text,
    Attachment,
}

/// One admissible value of an enumerated text parameter.
pub struct TextChoice {
    pub label: String,
    pub value: String,
}

/// One typed parameter of a command's input schema.
pub struct ParamSpec {
    pub name: String,
    pub description: String,
    pub kind: ParamKind,
    pub required: bool,
    pub choices: Vec<TextChoice>,
}

/// A registered command: unique name, input schema, and handler reference.
pub struct CommandDescriptor {
    pub id: CommandId,
    pub kind: HandlerKind,
    pub name: String,
    pub description: String,
    pub params: Vec<ParamSpec>,
}

/// One resolved argument value of an inbound event, already type-checked.
pub enum ArgValue {
    Int(i64),
    Text(String),
    Attachment { url: String, content_type: Option<String> },
}

/// No two registered commands share a name.
pub open spec fn unique_names(cmds: Seq<CommandDescriptor>) -> bool {
    forall|i: int, j: int| 0 <= i < j < cmds.len() ==> cmds[i].name@ != cmds[j].name@
}

/// The routing table: a fixed mapping from command name to descriptor,
/// read-only after startup.
pub struct Registry {
    pub commands: Vec<CommandDescriptor>,
}

impl Registry {
    pub open spec fn wf(self) -> bool {
        unique_names(self.commands@)
    }

    pub open spec fn has_name(self, name: Seq<char>) -> bool {
        exists|i: int| 0 <= i < self.commands@.len() && self.commands@[i].name@ == name
    }

    /// Builds the table, refusing a list that registers one name twice:
    /// the process must not start with an ambiguous routing table.
    pub fn new(cmds: Vec<CommandDescriptor>) -> (r: Option<Registry>)
        ensures
            r is Some <==> unique_names(cmds@),
            r is Some ==> r->0.commands == cmds && r->0.wf(),
    {
        let n = cmds.len();
        let mut i: usize = 0;
        while i < n
            invariant
                n == cmds@.len(),
                i <= n,
                forall|a: int, b: int| 0 <= a < b < n && a < i ==> cmds@[a].name@ != cmds@[b].name@,
            decreases n - i,
        {
            let mut j: usize = i + 1;
            while j < n
                invariant
                    n == cmds@.len(),
                    i < n,
                    i < j <= n,
                    forall|b: int| i < b < j ==> cmds@[i as int].name@ != cmds@[b].name@,
                decreases n - j,
            {
                if str_eq(cmds[i].name.as_str(), cmds[j].name.as_str()) {
                    return None;
                }
                j += 1;
            }
            i += 1;
        }
        Some(Registry { commands: cmds })
    }

    /// The fixed catalog the process starts with: the three commands, each
    /// under its own name.
    pub fn default_registry() -> (r: Registry)
        ensures
            r.wf(),
            r.commands@.len() == 3,
            r.commands@[0].name@ == "alarm"@,
            r.commands@[0].id == CommandId::Alarm,
            r.commands@[0].kind == HandlerKind::Deferred,
            r.commands@[1].name@ == "ping"@,
            r.commands@[1].id == CommandId::Ping,
            r.commands@[1].kind == HandlerKind::Immediate,
            r.commands@[2].name@ == "wallpaper"@,
            r.commands@[2].id == CommandId::Wallpaper,
            r.commands@[2].kind == HandlerKind::Deferred,
    {
        let mut cmds: Vec<CommandDescriptor> = Vec::new();
        cmds.push(crate::alarm::register());
        cmds.push(crate::ping::register());
        cmds.push(crate::wallpaper::register());
        proof {
            reveal_strlit("alarm");
            reveal_strlit("ping");
            reveal_strlit("wallpaper");
            assert("alarm"@.len() == 5);
            assert("ping"@.len() == 4);
            assert("wallpaper"@.len() == 9);
            assert(cmds@[0].name@ != cmds@[1].name@);
            assert(cmds@[0].name@ != cmds@[2].name@);
            assert(cmds@[1].name@ != cmds@[2].name@);
        }
        Registry { commands: cmds }
    }

    /// Finds the descriptor registered under `name`, if there is one.
    pub fn lookup(&self, name: &str) -> (r: Option<&CommandDescriptor>)
        ensures
            match r {
                Some(d) => d.name@ == name@ && exists|i: int|
                    0 <= i < self.commands@.len() && self.commands@[i] == *d,
                None => !self.has_name(name@),
            },
    {
        let n = self.commands.len();
        let mut i: usize = 0;
        while i < n
            invariant
                n == self.commands@.len(),
                i <= n,
                forall|j: int| 0 <= j < i ==> self.commands@[j].name@ != name@,
            decreases n - i,
        {
            if str_eq(self.commands[i].name.as_str(), name) {
                return Some(&self.commands[i]);
            }
            i += 1;
        }
        None
    }
}

} // verus!
