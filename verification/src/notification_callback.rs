//! Listeners told when a server's list of tools, resources or prompts has
//! changed.
use vstd::prelude::*;

verus! {

/// A change a listener is told of, with the server's name.
pub enum ListChange {
    /// The server's tool list changed.
    Tools(Seq<char>),
    /// The server's resource list changed.
    Resources(Seq<char>),
    /// The server's prompt list changed.
    Prompts(Seq<char>),
}

/// A listener for changes of the lists a server offers.
pub trait ManifestChangeCallback {
    /// What the listener has been told so far, oldest first.
    spec fn heard(&self) -> Seq<ListChange>;

    /// The server's tool list changed.
    fn tools_list_changed(&mut self, server_name: &str)
        ensures
            final(self).heard() == old(self).heard().push(ListChange::Tools(server_name@)),
    ;

    /// The server's resource list changed.
    fn resources_list_changed(&mut self, server_name: &str)
        ensures
            final(self).heard() == old(self).heard().push(ListChange::Resources(server_name@)),
    ;

    /// The server's prompt list changed.
    fn prompts_list_changed(&mut self, server_name: &str)
        ensures
            final(self).heard() == old(self).heard().push(ListChange::Prompts(server_name@)),
    ;
}

/// A listener that does nothing, for tests and as a placeholder.
pub struct NullCallback {
    heard: Ghost<Seq<ListChange>>,
}

impl NullCallback {
    /// A listener that has been told nothing yet.
    pub fn new() -> (r: Self)
        ensures
            r.heard() == Seq::<ListChange>::empty(),
    {
        NullCallback { heard: Ghost(Seq::empty()) }
    }
}

impl ManifestChangeCallback for NullCallback {
    closed spec fn heard(&self) -> Seq<ListChange> {
        self.heard@
    }

    fn tools_list_changed(&mut self, server_name: &str) {
        self.heard = Ghost(self.heard@.push(ListChange::Tools(server_name@)));
    }

    fn resources_list_changed(&mut self, server_name: &str) {
        self.heard = Ghost(self.heard@.push(ListChange::Resources(server_name@)));
    }

    fn prompts_list_changed(&mut self, server_name: &str) {
        self.heard = Ghost(self.heard@.push(ListChange::Prompts(server_name@)));
    }
}

} // verus!
