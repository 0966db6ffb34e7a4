//! The window-manager utility: detected window-manager kind, the event
//! bus, the bar bookkeeping, and the commands sent to the window manager.
//!
//! Talking to i3 or bspwm happens over sockets owned by the unverified
//! shell; this layer decides *what* to send.  Every window-manager action
//! returns a [`WmCommand`] value describing the exact command, and the
//! shell writes it out.

use vstd::prelude::*;

use vstd::string::StringExecFns;

use crate::bus::Event;
use crate::bus::EventEmitter;
use crate::bus::EventId;
use crate::bus::EventValue;
use crate::bus::ids_for;
use crate::workspace::Workspace;
use crate::workspace::string_eq;

verus! {

/// The window managers the bar knows how to talk to.
#[derive(Debug, Clone, Copy, PartialEq, Eq, Structural)]
pub enum WMType {
    /// The i3 window manager.
    I3,
    /// The bspwm window manager.
    Bsp,
    /// No supported window manager was detected.
    Unknown,
}

impl WMType {
    /// The lower-case name of the window manager.
    pub fn name(&self) -> (r: String)
        ensures
            *self == WMType::I3 ==> r@ == "i3"@,
            *self == WMType::Bsp ==> r@ == "bsp"@,
            *self == WMType::Unknown ==> r@ == "unknown"@,
    {
        match self {
            WMType::I3 => "i3".to_owned(),
            WMType::Bsp => "bsp".to_owned(),
            WMType::Unknown => "unknown".to_owned(),
        }
    }
}

/// One named configuration group, reduced to what this layer reads from
/// it: the group's name and the monitor it is assigned to.
#[derive(Debug, Clone, PartialEq)]
pub struct ConfigGroup {
    /// The group's name.
    pub name: String,
    /// Index of the monitor the group is placed on.
    pub monitor: usize,
}

/// An exact copy of a configuration group.
pub fn copy_group(g: &ConfigGroup) -> (r: ConfigGroup)
    ensures
        r == *g,
{
    ConfigGroup { name: g.name.clone(), monitor: g.monitor }
}

/// The configuration this layer works from.
#[derive(Debug)]
pub struct Config {
    /// Bar definitions, in configuration order.
    pub bars: Vec<ConfigGroup>,
    /// Component definitions, in configuration order.
    pub components: Vec<ConfigGroup>,
    /// Path of the current theme, if one is set.
    pub theme: Option<String>,
    /// Directory that relative configuration paths resolve against.
    pub config_dir: String,
}

/// A command for the window manager, ready to be written to its socket
/// (or, for bspwm configuration, passed to `bspc`).
#[derive(Debug, Clone, PartialEq)]
pub enum WmCommand {
    /// A command string for the i3 IPC socket.
    I3Command(String),
    /// A command string for the bspwm socket.
    BspCommand(String),
    /// A bspwm `config` setting and its new integer value.
    BspConfig { setting: String, value: i32 },
}

/// The first focused workspace in the list, if any.
pub open spec fn first_focused(ws: Seq<Workspace>) -> Option<int>
    decreases ws.len(),
{
    if ws.len() == 0 {
        Option::None
    } else if ws[0].focused {
        Option::Some(0)
    } else {
        match first_focused(ws.drop_first()) {
            Option::Some(i) => Option::Some(i + 1),
            Option::None => Option::None,
        }
    }
}

/// The index reached from `i` by one cyclic step through `n` slots.
pub open spec fn cyclic_step(i: int, forward: bool, n: int) -> int {
    if forward {
        if i + 1 < n {
            i + 1
        } else {
            0
        }
    } else {
        if i == 0 {
            n - 1
        } else {
            i - 1
        }
    }
}

/// The window-manager utility state.
pub struct WMUtil {
    /// The detected window manager.
    pub wm_type: WMType,
    /// The event bus.
    pub events: EventEmitter,
    /// The loaded configuration.
    pub config: Config,
    /// The bar groups currently loaded, in configuration order.
    pub bars: Vec<ConfigGroup>,
}

impl WMUtil {
    /// A fresh utility for the given (externally detected) window
    /// manager and configuration.  No bars are loaded and nobody is
    /// subscribed yet.
    pub fn new(wm_type: WMType, config: Config) -> (r: WMUtil)
        ensures
            r.wm_type == wm_type,
            r.config == config,
            r.bars@ == Seq::<ConfigGroup>::empty(),
            r.events.next_id == 0,
            r.events.subs@.len() == 0,
    {
        let r = WMUtil { wm_type, events: EventEmitter::new(), config, bars: Vec::new() };
        proof {
            assert(r.bars@ =~= Seq::<ConfigGroup>::empty());
        }
        r
    }

    /// The detected window-manager kind.
    pub fn get_wm_type(&self) -> (r: WMType)
        ensures
            r == self.wm_type,
    {
        self.wm_type
    }

    /// Subscribe to an event kind; returns the handle to deliver
    /// callbacks under, usable for explicit removal.
    pub fn add_listener(&mut self, event: Event) -> (id: EventId)
        requires
            old(self).events.next_id < EventId::MAX,
        ensures
            id == old(self).events.next_id,
            final(self).events.next_id == old(self).events.next_id + 1,
            final(self).events.subs@ == old(self).events.subs@.push(
                crate::bus::ListenerEntry { event, id },
            ),
            final(self).wm_type == old(self).wm_type,
            final(self).config == old(self).config,
            final(self).bars@ == old(self).bars@,
    {
        self.events.add_listener(event)
    }

    /// Remove the subscription with the given handle.
    pub fn remove_listener(&mut self, event: Event, id: EventId)
        ensures
            final(self).events.next_id == old(self).events.next_id,
            final(self).events.subs@ == old(self).events.subs@.filter(
                |e: crate::bus::ListenerEntry| !(e.event == event && e.id == id),
            ),
            final(self).wm_type == old(self).wm_type,
            final(self).config == old(self).config,
            final(self).bars@ == old(self).bars@,
    {
        self.events.remove_listener(event, id)
    }

    /// The handles to notify for an event without a payload.
    pub fn emit(&self, event: Event) -> (ids: Vec<EventId>)
        ensures
            ids@ == ids_for(self.events.subs@, event),
    {
        self.events.emit(event)
    }

    /// The handles to notify for an event carrying `value`; the caller
    /// hands the payload to each returned handle's callback.
    #[allow(unused_variables)]
    pub fn emit_value(&self, event: Event, value: &EventValue) -> (ids: Vec<EventId>)
        ensures
            ids@ == ids_for(self.events.subs@, event),
    {
        self.events.emit(event)
    }

    /// The current workspace list.  Fetching is the connection owner's
    /// job; `fetched` is what its backend returned, and is passed through
    /// only when a supported window manager is present.
    pub fn get_workspaces(&self, fetched: Option<Vec<Workspace>>) -> (r: Option<Vec<Workspace>>)
        ensures
            self.wm_type == WMType::Unknown ==> r matches Option::None,
            self.wm_type != WMType::Unknown ==> r == fetched,
    {
        match self.wm_type {
            WMType::Unknown => Option::None,
            _ => fetched,
        }
    }

    /// The command that focuses the named workspace.
    pub fn focus_workspace(&self, workspace_name: &String) -> (cmd: Option<WmCommand>)
        ensures
            self.wm_type == WMType::I3 ==> (cmd matches Option::Some(
                WmCommand::I3Command(s),
            ) && s@ == "workspace "@ + workspace_name@),
            self.wm_type == WMType::Bsp ==> (cmd matches Option::Some(
                WmCommand::BspCommand(s),
            ) && s@ == "desktop -f "@ + workspace_name@),
            self.wm_type == WMType::Unknown ==> cmd matches Option::None,
    {
        match self.wm_type {
            WMType::I3 => {
                let s = String::from_str("workspace ").concat(workspace_name.as_str());
                Option::Some(WmCommand::I3Command(s))
            },
            WMType::Bsp => {
                let s = String::from_str("desktop -f ").concat(workspace_name.as_str());
                Option::Some(WmCommand::BspCommand(s))
            },
            WMType::Unknown => Option::None,
        }
    }

    /// The command that cycles focus to the next (or previous) workspace
    /// of the given list.  The caller restricts the list to one monitor
    /// beforehand (see [`crate::workspace::filter_by_name`]); the monitor
    /// index is the restriction it applied.
    #[allow(unused_variables)]
    pub fn cycle_workspace(
        &self,
        forward: bool,
        monitor_index: i32,
        workspaces: &Vec<Workspace>,
    ) -> (cmd: Option<WmCommand>)
        ensures
            (self.wm_type == WMType::Unknown || first_focused(workspaces@) matches Option::None)
                ==> cmd matches Option::None,
            self.wm_type != WMType::Unknown ==> (first_focused(workspaces@) matches Option::Some(
                i,
            ) ==> {
                let target = workspaces@[cyclic_step(i, forward, workspaces@.len() as int)];
                match self.wm_type {
                    WMType::I3 => cmd matches Option::Some(WmCommand::I3Command(s)) && s@
                        == "workspace "@ + target.name@,
                    WMType::Bsp => cmd matches Option::Some(WmCommand::BspCommand(s)) && s@
                        == "desktop -f "@ + target.name@,
                    WMType::Unknown => false,
                }
            }),
    {
        if let WMType::Unknown = self.wm_type {
            return Option::None;
        }
        match find_focused(workspaces) {
            Option::Some(i) => {
                let n = workspaces.len();
                let j: usize = if forward {
                    if i + 1 < n {
                        i + 1
                    } else {
                        0
                    }
                } else {
                    if i == 0 {
                        n - 1
                    } else {
                        i - 1
                    }
                };
                self.focus_workspace(&workspaces[j].name)
            },
            Option::None => Option::None,
        }
    }

    /// The command that applies the bar's padding to the window manager;
    /// only bspwm needs one.
    pub fn set_padding(&self, is_top: bool, padding: i32) -> (cmd: Option<WmCommand>)
        ensures
            self.wm_type == WMType::Bsp ==> (cmd matches Option::Some(
                WmCommand::BspConfig { setting, value },
            ) && value == padding && (is_top ==> setting@ == "top_padding"@) && (!is_top
                ==> setting@ == "bottom_padding"@)),
            self.wm_type != WMType::Bsp ==> cmd matches Option::None,
    {
        match self.wm_type {
            WMType::Bsp => {
                let setting = if is_top {
                    "top_padding".to_owned()
                } else {
                    "bottom_padding".to_owned()
                };
                Option::Some(WmCommand::BspConfig { setting, value: padding })
            },
            _ => Option::None,
        }
    }

    /// Remember a new theme path, when one is given; the shell reloads
    /// the style sheet from the path reported by [`WMUtil::get_theme`].
    pub fn load_theme(&mut self, new_path: Option<String>)
        ensures
            final(self).config.theme == match new_path {
                Option::Some(p) => Option::Some(p),
                Option::None => old(self).config.theme,
            },
            final(self).config.bars == old(self).config.bars,
            final(self).config.components == old(self).config.components,
            final(self).config.config_dir == old(self).config.config_dir,
            final(self).wm_type == old(self).wm_type,
            final(self).events == old(self).events,
            final(self).bars@ == old(self).bars@,
    {
        if let Option::Some(p) = new_path {
            self.config.theme = Option::Some(p);
        }
    }

    /// The current theme path.
    pub fn get_theme(&self) -> (r: Option<String>)
        ensures
            r == self.config.theme,
    {
        match &self.config.theme {
            Option::Some(t) => Option::Some(t.clone()),
            Option::None => Option::None,
        }
    }

    /// Load the bars whose monitor exists: a bar configured for a monitor
    /// index at or past `monitor_count` is skipped.  The shell builds one
    /// window per entry of the resulting list, in order.
    pub fn load_bars(&mut self, monitor_count: usize)
        ensures
            final(self).bars@ == old(self).config.bars@.filter(
                |b: ConfigGroup| b.monitor < monitor_count,
            ),
            final(self).wm_type == old(self).wm_type,
            final(self).config == old(self).config,
            final(self).events == old(self).events,
    {
        let ghost pred = |b: ConfigGroup| b.monitor < monitor_count;
        let mut loaded: Vec<ConfigGroup> = Vec::new();
        let mut i: usize = 0;
        proof {
            reveal(Seq::filter);
            assert(old(self).config.bars@.take(0) =~= Seq::<ConfigGroup>::empty());
            assert(loaded@ =~= old(self).config.bars@.take(0).filter(pred));
        }
        while i < self.config.bars.len()
            invariant
                i <= self.config.bars.len(),
                *self == *old(self),
                loaded@ == self.config.bars@.take(i as int).filter(pred),
            decreases self.config.bars.len() - i,
        {
            let b = &self.config.bars[i];
            proof {
                assert(self.config.bars@.take(i + 1).drop_last() =~= self.config.bars@.take(
                    i as int,
                ));
                assert(self.config.bars@.take(i + 1).last() == self.config.bars@[i as int]);
            }
            if b.monitor < monitor_count {
                let g = copy_group(b);
                loaded.push(g);
            }
            proof {
                reveal(Seq::filter);
                assert(loaded@ =~= self.config.bars@.take(i + 1).filter(pred));
            }
            i = i + 1;
        }
        proof {
            assert(self.config.bars@.take(self.config.bars@.len() as int) =~= self.config.bars@);
        }
        self.bars = loaded;
    }

    /// Forget every loaded bar; the shell destroys the windows.
    pub fn unload_bars(&mut self)
        ensures
            final(self).bars@ == Seq::<ConfigGroup>::empty(),
            final(self).wm_type == old(self).wm_type,
            final(self).config == old(self).config,
            final(self).events == old(self).events,
    {
        self.bars.clear();
        proof {
            assert(self.bars@ =~= Seq::<ConfigGroup>::empty());
        }
    }

    /// The names of the loaded bars that appear in `names`: the bars the
    /// shell must hide.
    pub fn hide_bars(&self, names: Vec<String>) -> (r: Vec<String>)
        ensures
            r@ == self.bars@.filter(|b: ConfigGroup| contains_string(names@, b.name@)).map_values(
                |b: ConfigGroup| b.name,
            ),
    {
        let ghost pred = |b: ConfigGroup| contains_string(names@, b.name@);
        let mut r: Vec<String> = Vec::new();
        let mut i: usize = 0;
        proof {
            reveal(Seq::filter);
            assert(self.bars@.take(0) =~= Seq::<ConfigGroup>::empty());
            assert(r@ =~= self.bars@.take(0).filter(pred).map_values(|b: ConfigGroup| b.name));
        }
        while i < self.bars.len()
            invariant
                i <= self.bars.len(),
                r@ == self.bars@.take(i as int).filter(pred).map_values(
                    |b: ConfigGroup| b.name,
                ),
            decreases self.bars.len() - i,
        {
            let b = &self.bars[i];
            proof {
                assert(self.bars@.take(i + 1).drop_last() =~= self.bars@.take(i as int));
                assert(self.bars@.take(i + 1).last() == self.bars@[i as int]);
            }
            if vec_contains_string(&names, &b.name) {
                r.push(b.name.clone());
            }
            proof {
                reveal(Seq::filter);
                assert(r@ =~= self.bars@.take(i + 1).filter(pred).map_values(
                    |b: ConfigGroup| b.name,
                ));
            }
            i = i + 1;
        }
        proof {
            assert(self.bars@.take(self.bars@.len() as int) =~= self.bars@);
        }
        r
    }

    /// The names of the loaded bars, in order.
    pub fn get_bar_names(&self) -> (r: Vec<String>)
        ensures
            r@ == self.bars@.map_values(|b: ConfigGroup| b.name),
    {
        let mut r: Vec<String> = Vec::new();
        let mut i: usize = 0;
        proof {
            assert(self.bars@.take(0) =~= Seq::<ConfigGroup>::empty());
            assert(r@ =~= self.bars@.take(0).map_values(|b: ConfigGroup| b.name));
        }
        while i < self.bars.len()
            invariant
                i <= self.bars.len(),
                r@ == self.bars@.take(i as int).map_values(|b: ConfigGroup| b.name),
            decreases self.bars.len() - i,
        {
            r.push(self.bars[i].name.clone());
            proof {
                assert(r@ =~= self.bars@.take(i + 1).map_values(|b: ConfigGroup| b.name));
            }
            i = i + 1;
        }
        proof {
            assert(self.bars@.take(self.bars@.len() as int) =~= self.bars@);
        }
        r
    }

    /// The component group with the given name, if the configuration
    /// holds one; the first match wins.
    pub fn get_component_config(&self, name: &String) -> (r: Option<ConfigGroup>)
        ensures
            r == find_group(self.config.components@, name@),
    {
        let mut i: usize = 0;
        proof {
            assert(self.config.components@.skip(0) =~= self.config.components@);
        }
        while i < self.config.components.len()
            invariant
                i <= self.config.components.len(),
                find_group(self.config.components@, name@) == find_group(
                    self.config.components@.skip(i as int),
                    name@,
                ),
            decreases self.config.components.len() - i,
        {
            let g = &self.config.components[i];
            proof {
                assert(self.config.components@.skip(i as int)[0]
                    == self.config.components@[i as int]);
                assert(self.config.components@.skip(i as int).drop_first()
                    =~= self.config.components@.skip(i + 1));
            }
            if string_eq(&g.name, name) {
                return Option::Some(copy_group(g));
            }
            i = i + 1;
        }
        proof {
            assert(self.config.components@.skip(self.config.components@.len() as int).len() == 0);
        }
        Option::None
    }

    /// The absolute path of a file inside the configuration directory.
    pub fn get_path(&self, filename: &str) -> (r: String)
        ensures
            r@ == self.config.config_dir@ + "/"@ + filename@,
    {
        self.config.config_dir.clone().concat("/").concat(filename)
    }
}

/// Whether some string in `names` holds exactly the characters `name`.
pub open spec fn contains_string(names: Seq<String>, name: Seq<char>) -> bool {
    exists|j: int| 0 <= j < names.len() && names[j]@ == name
}

/// Whether the vector holds a string with exactly the characters of `s`.
pub fn vec_contains_string(names: &Vec<String>, s: &String) -> (r: bool)
    ensures
        r == contains_string(names@, s@),
{
    let mut j: usize = 0;
    while j < names.len()
        invariant
            j <= names.len(),
            forall|k: int| 0 <= k < j ==> names@[k]@ != s@,
        decreases names.len() - j,
    {
        if string_eq(&names[j], s) {
            return true;
        }
        j = j + 1;
    }
    false
}

/// The first configuration group with the given name, if any.
pub open spec fn find_group(groups: Seq<ConfigGroup>, name: Seq<char>) -> Option<ConfigGroup>
    decreases groups.len(),
{
    if groups.len() == 0 {
        Option::None
    } else if groups[0].name@ == name {
        Option::Some(groups[0])
    } else {
        find_group(groups.drop_first(), name)
    }
}

/// Find the index of the first focused workspace.
pub fn find_focused(workspaces: &Vec<Workspace>) -> (r: Option<usize>)
    ensures
        match r {
            Option::Some(i) => first_focused(workspaces@) == Option::Some(i as int) && i
                < workspaces@.len(),
            Option::None => first_focused(workspaces@) matches Option::None,
        },
{
    let mut i: usize = 0;
    proof {
        assert(workspaces@.skip(0) =~= workspaces@);
    }
    while i < workspaces.len()
        invariant
            i <= workspaces.len(),
            forall|k: int| 0 <= k < i ==> !workspaces@[k].focused,
            first_focused_offset(workspaces@, i as int),
        decreases workspaces.len() - i,
    {
        proof {
            assert(workspaces@.skip(i as int)[0] == workspaces@[i as int]);
            assert(workspaces@.skip(i as int).drop_first() =~= workspaces@.skip(i + 1));
        }
        if workspaces[i].focused {
            return Option::Some(i);
        }
        i = i + 1;
    }
    Option::None
}

/// Relates the focused-index search over the whole list to the search
/// over its tail from `i`.
pub open spec fn first_focused_offset(ws: Seq<Workspace>, i: int) -> bool {
    first_focused(ws) == match first_focused(ws.skip(i)) {
        Option::Some(k) => Option::Some(k + i),
        Option::None => Option::None::<int>,
    }
}

} // verus!
