//! Decoded IPC commands and the selector logic used when showing or
//! hiding bars.
//!
//! The socket, the wire text and its parser live in the unverified shell;
//! this layer works on the decoded values.

use vstd::prelude::*;

use crate::wm_util::contains_string;
use crate::wm_util::vec_contains_string;

verus! {

/// One target selector of an IPC show/hide command.
#[derive(Debug, Clone, PartialEq)]
pub enum Selector {
    /// Selects a bar by name.
    Id(String),
    /// Selects components by class.
    Class(String),
}

/// The selector list of one command.
#[derive(Debug, Clone, PartialEq)]
pub struct Selectors(pub Vec<Selector>);

/// A decoded IPC command.
#[derive(Debug, Clone, PartialEq)]
pub enum IpcCommand {
    /// Show the selected bars or components.
    Show(Selectors),
    /// Hide the selected bars or components.
    Hide(Selectors),
    /// Reload the theme, optionally from a new path.
    ReloadTheme(Option<String>),
    /// Reload the configuration, optionally from a new path.
    ReloadConfig(Option<String>),
}

/// The names of the `Id` selectors that name an existing bar, in
/// selector order.
pub open spec fn selected_bars(selectors: Seq<Selector>, bar_names: Seq<String>) -> Seq<Seq<char>>
    decreases selectors.len(),
{
    if selectors.len() == 0 {
        Seq::<Seq<char>>::empty()
    } else {
        selected_bars(selectors.drop_last(), bar_names) + match selectors.last() {
            Selector::Id(n) => if contains_string(bar_names, n@) {
                seq![n@]
            } else {
                Seq::<Seq<char>>::empty()
            },
            Selector::Class(_) => Seq::<Seq<char>>::empty(),
        }
    }
}

/// The bars a show/hide command addresses: the `Id` selectors whose name
/// is a loaded bar's name.  Selectors of other kinds, and names that
/// match no bar, address components instead and are skipped here.
pub fn get_bars_from_selectors(selectors: &Selectors, bar_names: Vec<String>) -> (r: Vec<String>)
    ensures
        r@.map_values(|s: String| s@) == selected_bars(selectors.0@, bar_names@),
{
    let mut r: Vec<String> = Vec::new();
    let mut i: usize = 0;
    proof {
        assert(selectors.0@.take(0) =~= Seq::<Selector>::empty());
        assert(r@.map_values(|s: String| s@) =~= selected_bars(
            selectors.0@.take(0),
            bar_names@,
        ));
    }
    while i < selectors.0.len()
        invariant
            i <= selectors.0.len(),
            r@.map_values(|s: String| s@) == selected_bars(
                selectors.0@.take(i as int),
                bar_names@,
            ),
        decreases selectors.0.len() - i,
    {
        proof {
            assert(selectors.0@.take(i + 1).drop_last() =~= selectors.0@.take(i as int));
            assert(selectors.0@.take(i + 1).last() == selectors.0@[i as int]);
        }
        match &selectors.0[i] {
            Selector::Id(n) => {
                if vec_contains_string(&bar_names, n) {
                    r.push(n.clone());
                }
            },
            Selector::Class(_) => {},
        }
        proof {
            assert(r@.map_values(|s: String| s@) =~= selected_bars(
                selectors.0@.take(i + 1),
                bar_names@,
            ));
        }
        i = i + 1;
    }
    proof {
        assert(selectors.0@.take(selectors.0@.len() as int) =~= selectors.0@);
    }
    r
}

/// What the shell must do for one decoded command.
///
/// A show or hide whose selectors all name existing bars addresses whole
/// bars; otherwise it addresses components inside the selected bars, and
/// keeps the selectors for the component lookup.
#[derive(Debug, Clone, PartialEq)]
pub enum IpcAction {
    /// Show these bars.
    ShowBars(Vec<String>),
    /// Hide these bars.
    HideBars(Vec<String>),
    /// Show components: the selected bars and the original selectors.
    ShowComponents(Vec<String>, Selectors),
    /// Hide components: the selected bars and the original selectors.
    HideComponents(Vec<String>, Selectors),
    /// Reload the theme, optionally from a new path.
    ReloadTheme(Option<String>),
    /// Reload the configuration, optionally from a new path.
    ReloadConfig(Option<String>),
}

/// Decide what a decoded command asks for, given the loaded bar names:
/// show/hide commands address whole bars exactly when every selector is
/// the name of an existing bar.
pub fn plan_command(cmd: IpcCommand, bar_names: Vec<String>) -> (r: IpcAction)
    ensures
        (match cmd {
            IpcCommand::Show(sel) => {
                let bars = selected_bars(sel.0@, bar_names@);
                if sel.0@.len() == bars.len() {
                    r matches IpcAction::ShowBars(b) && b@.map_values(|s: String| s@) == bars
                } else {
                    r matches IpcAction::ShowComponents(b, s2) && b@.map_values(|s: String| s@)
                        == bars && s2 == sel
                }
            },
            IpcCommand::Hide(sel) => {
                let bars = selected_bars(sel.0@, bar_names@);
                if sel.0@.len() == bars.len() {
                    r matches IpcAction::HideBars(b) && b@.map_values(|s: String| s@) == bars
                } else {
                    r matches IpcAction::HideComponents(b, s2) && b@.map_values(|s: String| s@)
                        == bars && s2 == sel
                }
            },
            IpcCommand::ReloadTheme(p) => r == IpcAction::ReloadTheme(p),
            IpcCommand::ReloadConfig(p) => r == IpcAction::ReloadConfig(p),
        }),
{
    match cmd {
        IpcCommand::Show(sel) => {
            let bars = get_bars_from_selectors(&sel, bar_names);
            if sel.0.len() == bars.len() {
                IpcAction::ShowBars(bars)
            } else {
                IpcAction::ShowComponents(bars, sel)
            }
        },
        IpcCommand::Hide(sel) => {
            let bars = get_bars_from_selectors(&sel, bar_names);
            if sel.0.len() == bars.len() {
                IpcAction::HideBars(bars)
            } else {
                IpcAction::HideComponents(bars, sel)
            }
        },
        IpcCommand::ReloadTheme(p) => IpcAction::ReloadTheme(p),
        IpcCommand::ReloadConfig(p) => IpcAction::ReloadConfig(p),
    }
}

} // verus!
