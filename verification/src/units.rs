//! The set of systemd units that the tweaks page reads.
use vstd::prelude::*;

use crate::text::strings_view;

verus! {

/// The systemd units known to the application: those that are loaded and
/// those that are enabled.
#[derive(Clone, Debug)]
pub struct SystemdUnits {
    pub loaded_units: Vec<String>,
    pub enabled_units: Vec<String>,
}

impl SystemdUnits {
    /// The enabled units, as character sequences.
    pub open spec fn enabled(&self) -> Seq<Seq<char>> {
        strings_view(self.enabled_units@)
    }

    /// The loaded units, as character sequences.
    pub open spec fn loaded(&self) -> Seq<Seq<char>> {
        strings_view(self.loaded_units@)
    }

    /// An empty set of units: nothing loaded, nothing enabled.
    pub fn new() -> (units: Self)
        ensures
            units.loaded() == Seq::<Seq<char>>::empty(),
            units.enabled() == Seq::<Seq<char>>::empty(),
    {
        SystemdUnits { loaded_units: Vec::new(), enabled_units: Vec::new() }
    }

    /// Forgets the enabled units before they are read again; the loaded
    /// units are kept.
    pub fn clear_enabled(&mut self)
        ensures
            final(self).enabled() == Seq::<Seq<char>>::empty(),
            final(self).loaded() == old(self).loaded(),
    {
        self.enabled_units.clear();
    }

    /// Ends a reload of the enabled units: a list that was read replaces
    /// the enabled units, and a failed read (`None`) leaves them as they are.
    /// The loaded units are kept either way.
    pub fn finish_enabled_reload(&mut self, fetched: Option<Vec<String>>)
        ensures
            final(self).enabled() == (match fetched {
                Some(units) => strings_view(units@),
                None => old(self).enabled(),
            }),
            final(self).loaded() == old(self).loaded(),
    {
        if let Some(units) = fetched {
            self.enabled_units = units;
        }
    }

    /// Whether `unit` is among the enabled units.
    pub fn is_enabled(&self, unit: &str) -> (found: bool)
        ensures
            found == self.enabled().contains(unit@),
    {
        crate::text::contains_string(&self.enabled_units, unit)
    }
}

impl Default for SystemdUnits {
    fn default() -> (units: Self)
        ensures
            units.loaded() == Seq::<Seq<char>>::empty(),
            units.enabled() == Seq::<Seq<char>>::empty(),
    {
        Self::new()
    }
}

} // verus!
