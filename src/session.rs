//! The desktop client's session: at most one open store connection, held
//! in a slot that is passed around explicitly.
use vstd::prelude::*;

verus! {

/// Empties the session's slot and hands back the connection that was open,
/// for the caller to close. An empty slot stays empty; closing never fails.
pub fn close_connection<C>(slot: &mut Option<C>) -> (was_open: Option<C>)
    ensures
        *final(slot) is None,
        was_open == *old(slot),
{
    slot.take()
}

/// The connection of the session, or the reason there is none.
pub fn get_connection<C>(slot: &Option<C>) -> (r: Result<&C, String>)
    ensures
        match r {
            Ok(c) => *slot == Some(*c),
            Err(message) => *slot is None && message@
                == "Connexion non initialisée. Appelez `init_connection`."@,
        },
{
    match slot {
        Some(c) => Ok(c),
        None => Err(String::from_str("Connexion non initialisée. Appelez `init_connection`.")),
    }
}

} // verus!
