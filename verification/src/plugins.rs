//! The capabilities that the application attaches at startup.

use vstd::prelude::*;

verus! {

/// A capability of the surrounding application.
#[derive(Clone, Copy, Debug, PartialEq, Eq, Structural)]
pub enum Plugin {
    /// Opening a file or an address with the system's own handler.
    Opener,
    /// Reading and writing files.
    FileSystem,
    /// The local database, with its migrations.
    Sql,
}

/// The plugins in the order in which they are attached.
pub open spec fn startup_order() -> Seq<Plugin> {
    seq![Plugin::Opener, Plugin::FileSystem, Plugin::Sql]
}

/// The plugins to attach at startup, first to last. Each one is attached on
/// its own, and the application does not start unless all of them are.
pub fn plugins() -> (list: Vec<Plugin>)
    ensures
        list@ == startup_order(),
{
    let mut list: Vec<Plugin> = Vec::new();
    list.push(Plugin::Opener);
    list.push(Plugin::FileSystem);
    list.push(Plugin::Sql);
    assert(list@ =~= startup_order());
    list
}

} // verus!
