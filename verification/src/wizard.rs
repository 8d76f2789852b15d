//! The interactive wizard's decisions: which task a menu answer selects,
//! and when the update banner is shown.
//!
//! Printing the menu, reading the answer and looping on a bad one is the
//! caller's job — a plain loop, not recursion, so a misbehaving user
//! cannot grow the stack.

use vstd::prelude::*;

use crate::ctx::RunnerContext;
use crate::strutil::{eq_ignore_ascii_case, eq_ignore_case_spec};

verus! {

/// The tasks the wizard menu offers.
#[derive(Debug, Clone, PartialEq, Eq, Structural)]
pub enum MenuChoice {
    Install,
    Update,
    Verify,
    Clean,
    Uninstall,
    Debug,
    Quit,
    /// anything else: show the menu again
    Unknown,
}

/// The state of one wizard sitting.
#[derive(Debug, Clone)]
pub struct WizardContext {
    pub context: RunnerContext,
    /// how many times the menu was shown again after an unknown answer
    pub menu_trigger_count: u32,
}

/// Spec: the task a menu answer selects.
pub open spec fn menu_choice_spec(s: Seq<char>) -> MenuChoice {
    if eq_ignore_case_spec(s, "1"@) || eq_ignore_case_spec(s, "install"@) {
        MenuChoice::Install
    } else if eq_ignore_case_spec(s, "2"@) || eq_ignore_case_spec(s, "update"@) {
        MenuChoice::Update
    } else if eq_ignore_case_spec(s, "3"@) || eq_ignore_case_spec(s, "verify"@) {
        MenuChoice::Verify
    } else if eq_ignore_case_spec(s, "c"@) || eq_ignore_case_spec(s, "clean"@) {
        MenuChoice::Clean
    } else if eq_ignore_case_spec(s, "u"@) || eq_ignore_case_spec(s, "uninstall"@) {
        MenuChoice::Uninstall
    } else if eq_ignore_case_spec(s, "d"@) || eq_ignore_case_spec(s, "debug"@) {
        MenuChoice::Debug
    } else if eq_ignore_case_spec(s, "q"@) {
        MenuChoice::Quit
    } else {
        MenuChoice::Unknown
    }
}

/// Read a menu answer, without regard to ASCII case.
pub fn parse_menu_choice(input: &str) -> (r: MenuChoice)
    ensures
        r == menu_choice_spec(input@),
{
    proof {
        reveal_strlit("1");
        reveal_strlit("install");
        reveal_strlit("2");
        reveal_strlit("update");
        reveal_strlit("3");
        reveal_strlit("verify");
        reveal_strlit("c");
        reveal_strlit("clean");
        reveal_strlit("u");
        reveal_strlit("uninstall");
        reveal_strlit("d");
        reveal_strlit("debug");
        reveal_strlit("q");
    }
    if eq_ignore_ascii_case(input, "1") || eq_ignore_ascii_case(input, "install") {
        MenuChoice::Install
    } else if eq_ignore_ascii_case(input, "2") || eq_ignore_ascii_case(input, "update") {
        MenuChoice::Update
    } else if eq_ignore_ascii_case(input, "3") || eq_ignore_ascii_case(input, "verify") {
        MenuChoice::Verify
    } else if eq_ignore_ascii_case(input, "c") || eq_ignore_ascii_case(input, "clean") {
        MenuChoice::Clean
    } else if eq_ignore_ascii_case(input, "u") || eq_ignore_ascii_case(input, "uninstall") {
        MenuChoice::Uninstall
    } else if eq_ignore_ascii_case(input, "d") || eq_ignore_ascii_case(input, "debug") {
        MenuChoice::Debug
    } else if eq_ignore_ascii_case(input, "q") {
        MenuChoice::Quit
    } else {
        MenuChoice::Unknown
    }
}

impl WizardContext {
    /// Is the new-update banner shown above the menu? Only on the first
    /// showing, and only when a version is installed and a newer one is
    /// on the server.
    pub fn should_show_update_banner(&self, latest: usize) -> (r: bool)
        ensures
            r == (self.menu_trigger_count == 0 && (self.context.current_version matches Some(cv)
                && cv < latest)),
    {
        if self.menu_trigger_count != 0 {
            return false;
        }
        match self.context.current_version {
            Some(cv) => cv < latest,
            None => false,
        }
    }

    /// Record that an unknown answer was given and the menu is shown
    /// again.
    pub fn note_unknown_choice(&mut self)
        requires
            old(self).menu_trigger_count < u32::MAX,
        ensures
            final(self).menu_trigger_count == old(self).menu_trigger_count + 1,
            final(self).context == old(self).context,
    {
        self.menu_trigger_count = self.menu_trigger_count + 1;
    }
}

} // verus!
