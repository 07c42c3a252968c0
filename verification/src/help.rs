//! The help text of a command: a heading, then one line for each slot.

use vstd::prelude::*;
use crate::decl::Role;
use crate::model::{ArgView, PlanView};
use crate::named::{arg_views, Arg, Parser};
use crate::outcome::opt_text;
use crate::text::{snake, to_snake};

verus! {

/// `lead` and the text, where there is one.
pub open spec fn opt_part(lead: Seq<char>, text: Option<Seq<char>>) -> Seq<char> {
    match text {
        Some(t) => lead + t,
        None => Seq::empty(),
    }
}

/// The text where `on` holds, else nothing.
pub open spec fn tag(on: bool, text: Seq<char>) -> Seq<char> {
    if on {
        text
    } else {
        Seq::empty()
    }
}

/// The keys of a slot as the help shows them: the short key and a comma,
/// where there is one, then the long key.
pub open spec fn key_part(arg: ArgView) -> Seq<char> {
    match arg.short {
        Some(s) => s + ", "@ + arg.arg_name,
        None => arg.arg_name,
    }
}

/// What the help shows a slot under: a positional slot's name, the keys of
/// a named slot or a flag.
pub open spec fn subject(role: Role, arg: ArgView) -> Seq<char> {
    match role {
        Role::Positional => arg.name,
        _ => key_part(arg),
    }
}

/// The help line of one slot: four spaces, the subject, then, each after a
/// tab, the help text if there is one, `[variadic]` for a variadic
/// positional slot and `[optional]` for an optional positional or named
/// slot; then a line feed.
pub open spec fn help_line(role: Role, arg: ArgView) -> Seq<char> {
    "    "@ + subject(role, arg) + opt_part("\t"@, arg.help) + tag(
        role is Positional && arg.variadic,
        "\t[variadic]"@,
    ) + tag(!(role is Flag) && !arg.required, "\t[optional]"@) + "\n"@
}

/// The help lines of the first `upto` slots.
pub open spec fn help_lines(role: Role, slots: Seq<ArgView>, upto: int) -> Seq<char>
    decreases upto,
{
    if upto <= 0 {
        Seq::empty()
    } else {
        help_lines(role, slots, upto - 1) + help_line(role, slots[upto - 1])
    }
}

/// The part of the help that lists the slots: the positional and the named
/// slots under `ARGUMENTS:`, with an empty line after them, and the flags
/// under `FLAGS:`; a heading only where there is something under it.
pub open spec fn arguments_help(plan: PlanView) -> Seq<char> {
    let any = plan.pos_args.len() + plan.named_args.len() > 0;
    tag(any, "ARGUMENTS:\n"@) + help_lines(
        Role::Positional,
        plan.pos_args,
        plan.pos_args.len() as int,
    ) + help_lines(Role::Named, plan.named_args, plan.named_args.len() as int) + tag(any, "\n"@)
        + tag(plan.flags.len() > 0, "FLAGS:\n"@) + help_lines(
        Role::Flag,
        plan.flags,
        plan.flags.len() as int,
    )
}

/// The heading of a help text: `Help - ` and the command's name in its
/// hyphenated form, then the description and an empty line, if there is a
/// description.
pub open spec fn help_head(ident: Seq<char>, about: Option<Seq<char>>) -> Seq<char> {
    "Help - "@ + snake(ident) + "\n"@ + match about {
        Some(text) => text + "\n\n"@,
        None => Seq::empty(),
    }
}

/// Starts a help text.
pub fn start_help(ident: &str, about: &Option<String>) -> (helpmsg: String)
    ensures
        helpmsg@ == help_head(ident@, opt_text(*about)),
{
    let mut helpmsg = String::from_str("Help - ");
    helpmsg.append(to_snake(ident).as_str());
    helpmsg.append("\n");
    if let Some(text) = about {
        helpmsg.append(text.as_str());
        helpmsg.append("\n\n");
    }
    helpmsg
}

/// Appends the help line of one slot.
fn push_line(helpmsg: &mut String, role: Role, arg: &Arg)
    ensures
        final(helpmsg)@ == old(helpmsg)@ + help_line(role, arg@),
{
    let ghost start = helpmsg@;
    helpmsg.append("    ");
    match role {
        Role::Positional => {
            helpmsg.append(arg.name.as_str());
        },
        _ => {
            if let Some(short) = &arg.short {
                helpmsg.append(short.as_str());
                helpmsg.append(", ");
            }
            helpmsg.append(arg.arg_name.as_str());
        },
    }
    let ghost named = "    "@ + subject(role, arg@);
    assert(helpmsg@ =~= start + named);
    if let Some(help) = &arg.help {
        helpmsg.push('\t');
        helpmsg.append(help.as_str());
    }
    let ghost told = named + opt_part("\t"@, arg@.help);
    assert(helpmsg@ =~= start + told) by {
        reveal_strlit("\t");
    }
    let variadic = match role {
        Role::Positional => arg.variadic,
        _ => false,
    };
    if variadic {
        helpmsg.append("\t[variadic]");
    }
    let optional = match role {
        Role::Flag => false,
        _ => !arg.required,
    };
    if optional {
        helpmsg.append("\t[optional]");
    }
    helpmsg.append("\n");
}

/// Appends the help lines of all the slots, in order.
fn push_lines(helpmsg: &mut String, role: Role, slots: &Vec<Arg>)
    ensures
        final(helpmsg)@ == old(helpmsg)@ + help_lines(role, arg_views(slots@), slots.len() as int),
{
    let ghost start = helpmsg@;
    let mut i: usize = 0;
    while i < slots.len()
        invariant
            i <= slots.len(),
            helpmsg@ == start + help_lines(role, arg_views(slots@), i as int),
        decreases slots.len() - i,
    {
        push_line(helpmsg, role, &slots[i]);
        assert(arg_views(slots@)[i as int] == slots[i as int]@);
        i += 1;
    }
}

impl Parser {
    /// Builds the help about this command's arguments and appends it to
    /// `helpmsg`.
    pub fn build_help(&self, helpmsg: &mut String)
        ensures
            final(helpmsg)@ == old(helpmsg)@ + arguments_help(self@),
    {
        let args_empty = self.pos_args.len() == 0 && self.named_args.len() == 0;
        if !args_empty {
            helpmsg.append("ARGUMENTS:\n");
        }
        push_lines(helpmsg, Role::Positional, &self.pos_args);
        push_lines(helpmsg, Role::Named, &self.named_args);
        if !args_empty {
            helpmsg.append("\n");
        }
        if self.flags.len() > 0 {
            helpmsg.append("FLAGS:\n");
        }
        push_lines(helpmsg, Role::Flag, &self.flags);
    }
}

} // verus!
