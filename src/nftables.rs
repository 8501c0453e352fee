//! Commands on the firewall set, and what each does to the set's contents.
use vstd::prelude::*;

use crate::config::NftablesConfig;
use crate::Addr;

verus! {

/// What a command does to the named set.
#[derive(Clone, Copy, Debug, PartialEq, Eq, Structural)]
pub enum SetAction {
    /// Remove every element.
    Flush,
    /// Add the given elements; present ones stay.
    AddElements,
    /// Remove the given elements; absent ones are ignored.
    DeleteElements,
}

/// One command on the set `table`/`set` of the `inet` family.
#[derive(Clone, Debug)]
pub struct SetCommand {
    pub action: SetAction,
    pub table: String,
    pub set: String,
    /// The elements of an add or delete; empty for a flush.
    pub elements: Vec<Addr>,
}

/// The set's contents after `action` on `elems` was applied to a set
/// holding `before`.
pub open spec fn apply_set_action(before: Set<Addr>, action: SetAction, elems: Seq<Addr>) -> Set<
    Addr,
> {
    match action {
        SetAction::Flush => Set::empty(),
        SetAction::AddElements => before.union(elems.to_set()),
        SetAction::DeleteElements => before.difference(elems.to_set()),
    }
}

/// The set's contents after `cmd` was applied to a set holding `before`.
pub open spec fn apply_set_command(before: Set<Addr>, cmd: SetCommand) -> Set<Addr> {
    apply_set_action(before, cmd.action, cmd.elements@)
}

/// `cmd` names the set that `config` configures.
pub open spec fn targets(cmd: SetCommand, config: NftablesConfig) -> bool {
    &&& cmd.table@ == config.set_table@
    &&& cmd.set@ == config.set_name@
}

fn command(config: &NftablesConfig, action: SetAction, addrs: &[Addr]) -> (r: SetCommand)
    ensures
        targets(r, *config),
        r.action == action,
        r.elements@ == addrs@,
{
    SetCommand {
        action,
        table: config.set_table.clone(),
        set: config.set_name.clone(),
        elements: copy_addrs(addrs),
    }
}

fn copy_addrs(addrs: &[Addr]) -> (r: Vec<Addr>)
    ensures
        r@ == addrs@,
{
    let mut r: Vec<Addr> = Vec::with_capacity(addrs.len());
    let mut i: usize = 0;
    while i < addrs.len()
        invariant
            i <= addrs@.len(),
            r@ == addrs@.subrange(0, i as int),
        decreases addrs@.len() - i,
    {
        r.push(addrs[i]);
        i = i + 1;
    }
    assert(r@ =~= addrs@);
    r
}

/// The command that empties the configured set.
pub fn flush_set(config: &NftablesConfig) -> (r: SetCommand)
    ensures
        targets(r, *config),
        r.action == SetAction::Flush,
        r.elements@.len() == 0,
        forall|before: Set<Addr>| apply_set_command(before, r) == Set::<Addr>::empty(),
{
    command(config, SetAction::Flush, &[])
}

/// The command that adds `addrs` to the configured set, or `None` where
/// `addrs` is empty and there is nothing to apply.
pub fn add_addrs_to_set(config: &NftablesConfig, addrs: &[Addr]) -> (r: Option<SetCommand>)
    ensures
        r is None <==> addrs@.len() == 0,
        r matches Some(c) ==> {
            &&& targets(c, *config)
            &&& c.action == SetAction::AddElements
            &&& c.elements@ == addrs@
        },
{
    if addrs.len() == 0 {
        return None;
    }
    Some(command(config, SetAction::AddElements, addrs))
}

/// The command that removes `addrs` from the configured set, or `None` where
/// `addrs` is empty and there is nothing to apply.
pub fn remove_addrs_from_set(config: &NftablesConfig, addrs: &[Addr]) -> (r: Option<SetCommand>)
    ensures
        r is None <==> addrs@.len() == 0,
        r matches Some(c) ==> {
            &&& targets(c, *config)
            &&& c.action == SetAction::DeleteElements
            &&& c.elements@ == addrs@
        },
{
    if addrs.len() == 0 {
        return None;
    }
    Some(command(config, SetAction::DeleteElements, addrs))
}

} // verus!
