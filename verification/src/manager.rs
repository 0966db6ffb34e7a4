//! The tray manager: owner of the tray window, the selection handshake,
//! the set of docked child windows, and the shutdown sequence.
//!
//! The manager is a state machine over decoded events.  It performs no
//! I/O: every protocol request it wants sent is appended to its outgoing
//! buffer (`requests`), and the inputs that only the X server can provide
//! (selection-owner queries, window geometry) are passed in as arguments
//! by the event loop that owns the connection.

use vstd::prelude::*;

use crate::atoms::Atoms;
use crate::atoms::EVENT_MASK_NO_EVENT;
use crate::atoms::EVENT_MASK_PROPERTY_CHANGE;
use crate::atoms::EVENT_MASK_STRUCTURE_NOTIFY;
use crate::atoms::XCB_NONE;
use crate::atoms::XA_ATOM;
use crate::atoms::XA_CARDINAL;
use crate::atoms::XA_INTEGER;
use crate::atoms::XA_STRING;
use crate::atoms::XA_VISUALID;
use crate::atoms::XA_WM_CLASS;
use crate::atoms::XA_WM_NAME;
use crate::request::PropMode;
use crate::request::PropPayloadModel;
use crate::request::PropPayload;
use crate::request::XRequest;
use crate::request::XRequestModel;
use crate::atoms::SYSTEM_TRAY_CANCEL_MESSAGE;
use crate::atoms::SYSTEM_TRAY_REQUEST_DOCK;
use crate::xevent::EventResponse;
use crate::xevent::TrayEvent;

verus! {

/// Largest total tray width, in pixels, that the layout arithmetic
/// admits: horizontal offsets travel through the protocol as 16-bit
/// signed coordinates.
pub const MAX_TRAY_EXTENT: u16 = 32767;

/// The tray manager's state.
///
/// The X connection is not part of the state: requests accumulate in
/// `requests` until the owning event loop drains and performs them.
pub struct Manager {
    /// Resolved atom identifiers.
    pub atoms: Atoms,
    /// Index of the screen the tray lives on.
    pub screen: usize,
    /// Fixed edge length, in pixels, of every docked icon.
    pub icon_size: u16,
    /// Background pixel value of the tray window.
    pub bg: u32,
    /// The tray window's own identifier.
    pub window: u32,
    /// The root window of the tray's screen.
    pub root: u32,
    /// The root visual the tray publishes under `_NET_SYSTEM_TRAY_VISUAL`.
    pub visual: u32,
    /// Horizontal anchor position of the tray window.
    pub anchor_x: u32,
    /// Vertical anchor position of the tray window.
    pub anchor_y: u32,
    /// Height the tray window is configured to while visible.
    pub tray_height: u32,
    /// Docked child windows, in display order; the slot index of a child
    /// is its position here.
    pub children: Vec<u32>,
    /// Timestamp of the successful selection claim; 0 while unclaimed.
    pub timestamp: u32,
    /// Whether shutdown has started.
    pub finishing: bool,
    /// Whether the last map-state request issued for the tray window was
    /// a map (true) or an unmap (false).
    pub mapped: bool,
    /// Outgoing protocol requests, oldest first.
    pub requests: Vec<XRequest>,
}

impl Manager {
    /// The outgoing buffer, as spec-level request values.
    pub open spec fn log(self) -> Seq<XRequestModel> {
        self.requests@.map_values(|r: XRequest| r@)
    }

    /// The configuration fields no method ever changes.
    pub open spec fn same_config(pre: Manager, post: Manager) -> bool {
        &&& post.atoms == pre.atoms
        &&& post.screen == pre.screen
        &&& post.icon_size == pre.icon_size
        &&& post.bg == pre.bg
        &&& post.window == pre.window
        &&& post.root == pre.root
        &&& post.visual == pre.visual
        &&& post.anchor_x == pre.anchor_x
        &&& post.anchor_y == pre.anchor_y
        &&& post.tray_height == pre.tray_height
    }

    /// Everything but the outgoing buffer is unchanged.
    pub open spec fn same_state(pre: Manager, post: Manager) -> bool {
        &&& Manager::same_config(pre, post)
        &&& post.children@ == pre.children@
        &&& post.timestamp == pre.timestamp
        &&& post.finishing == pre.finishing
        &&& post.mapped == pre.mapped
    }

    /// The manager's invariant.
    ///
    /// - no window is docked twice, and the tray window is never docked
    ///   into itself;
    /// - the layout arithmetic stays within the 16-bit coordinate range;
    /// - while not finishing, the tray window is mapped exactly when at
    ///   least one child is docked;
    /// - while the selection is unclaimed, nothing is docked and the tray
    ///   window is unmapped;
    /// - once finishing, every child has been returned and the tray
    ///   window is down.
    pub open spec fn wf(self) -> bool {
        &&& self.geometry_ok()
        &&& (!self.finishing ==> (self.mapped <==> self.children@.len() > 0))
        &&& (!self.finishing && self.timestamp == 0 ==> self.children@.len() == 0 && !self.mapped)
        &&& (self.finishing ==> self.children@.len() == 0 && !self.mapped)
    }

    /// The part of the invariant the layout arithmetic needs: a positive
    /// icon size, no duplicate children, the tray window not docked into
    /// itself, and a total extent within the 16-bit coordinate range.
    pub open spec fn geometry_ok(self) -> bool {
        &&& self.icon_size > 0
        &&& self.children@.no_duplicates()
        &&& !self.children@.contains(self.window)
        &&& self.children@.len() * self.icon_size <= MAX_TRAY_EXTENT
    }

    /// A fresh manager: nothing docked, selection unclaimed, no requests
    /// issued yet.  The window identifier, root window and root visual
    /// are generated and looked up by the caller that owns the
    /// connection.
    pub fn new(
        atoms: Atoms,
        screen: usize,
        icon_size: u16,
        bg: u32,
        window: u32,
        root: u32,
        visual: u32,
    ) -> (m: Manager)
        requires
            icon_size > 0,
        ensures
            m.atoms == atoms,
            m.screen == screen,
            m.icon_size == icon_size,
            m.bg == bg,
            m.window == window,
            m.root == root,
            m.visual == visual,
            m.anchor_x == 140,
            m.anchor_y == 3,
            m.tray_height == 20,
            m.children@ == Seq::<u32>::empty(),
            m.timestamp == 0,
            !m.finishing,
            !m.mapped,
            m.log() == Seq::<XRequestModel>::empty(),
            m.wf(),
    {
        let m = Manager {
            atoms,
            screen,
            icon_size,
            bg,
            window,
            root,
            visual,
            anchor_x: 140,
            anchor_y: 3,
            tray_height: 20,
            children: Vec::new(),
            timestamp: 0,
            finishing: false,
            mapped: false,
            requests: Vec::new(),
        };
        proof {
            assert(m.log() =~= Seq::<XRequestModel>::empty());
            assert(m.children@ =~= Seq::<u32>::empty());
        }
        m
    }

    /// Change where the tray window is anchored and how tall it is
    /// configured while visible.
    pub fn set_anchor(&mut self, x: u32, y: u32, height: u32)
        ensures
            *final(self) == (Manager {
                anchor_x: x,
                anchor_y: y,
                tray_height: height,
                ..*old(self)
            }),
    {
        self.anchor_x = x;
        self.anchor_y = y;
        self.tray_height = height;
    }

    /// Append one request to the outgoing buffer.
    fn push_req(&mut self, r: XRequest)
        ensures
            final(self).log() == old(self).log().push(r@),
            *final(self) == (Manager { requests: final(self).requests, ..*old(self) }),
    {
        self.requests.push(r);
        proof {
            assert(self.log() =~= old(self).log().push(r@));
        }
    }

    /// Hand the buffered requests to the caller for execution, leaving
    /// the buffer empty.
    pub fn take_requests(&mut self) -> (r: Vec<XRequest>)
        ensures
            r@ == old(self).requests@,
            final(self).requests@ == Seq::<XRequest>::empty(),
            *final(self) == (Manager { requests: final(self).requests, ..*old(self) }),
    {
        let mut r: Vec<XRequest> = Vec::new();
        core::mem::swap(&mut r, &mut self.requests);
        proof {
            assert(self.requests@ =~= Seq::<XRequest>::empty());
        }
        r
    }

    /// Whether a window is currently docked.
    pub fn is_docked(&self, window: u32) -> (r: bool)
        ensures
            r == self.children@.contains(window),
    {
        let mut i: usize = 0;
        while i < self.children.len()
            invariant
                i <= self.children.len(),
                forall|k: int| 0 <= k < i ==> self.children@[k] != window,
            decreases self.children.len() - i,
        {
            if self.children[i] == window {
                return true;
            }
            i = i + 1;
        }
        false
    }

    /// Whether the tray selection currently has no owner, given the owner
    /// the caller just queried from the server.
    pub fn is_selection_available(&self, current_owner: u32) -> (r: bool)
        ensures
            r == (current_owner == XCB_NONE),
    {
        current_owner == XCB_NONE
    }

    /// The requests a property change issues.
    pub open spec fn set_property_log(
        m: Manager,
        name: u32,
        property_type: u32,
        format: u8,
        payload: PropPayload,
    ) -> Seq<XRequestModel> {
        seq![
            XRequestModel::ChangeProperty {
                mode: PropMode::Replace,
                window: m.window,
                property: name,
                property_type: property_type,
                format: format,
                payload: payload@,
            },
        ]
    }

    /// Replace a property of the tray window.
    pub fn set_property(&mut self, name: u32, property_type: u32, format: u8, payload: PropPayload)
        ensures
            Manager::same_state(*old(self), *final(self)),
            final(self).log() == old(self).log() + Manager::set_property_log(
                *old(self),
                name,
                property_type,
                format,
                payload,
            ),
            old(self).wf() ==> final(self).wf(),
    {
        let ghost pre = *self;
        self.push_req(XRequest::ChangeProperty {
            mode: PropMode::Replace,
            window: self.window,
            property: name,
            property_type,
            format,
            payload,
        });
        proof {
            assert(self.log() =~= pre.log() + Manager::set_property_log(
                pre,
                name,
                property_type,
                format,
                payload,
            ));
        }
    }

    /// The requests one relayout of the tray window issues, for a tray
    /// holding `n` children.
    pub open spec fn reposition_log(m: Manager, n: int) -> Seq<XRequestModel> {
        if n > 0 {
            seq![
                XRequestModel::ConfigureRect {
                    window: m.window,
                    x: m.anchor_x,
                    y: m.anchor_y,
                    width: (n * m.icon_size) as u32,
                    height: m.tray_height,
                },
                XRequestModel::MapWindow { window: m.window },
                XRequestModel::Flush,
            ]
        } else {
            seq![XRequestModel::UnmapWindow { window: m.window }, XRequestModel::Flush]
        }
    }

    /// Recompute and apply the tray window's own geometry: width grows
    /// with the number of docked children, and an empty tray is unmapped
    /// rather than shown as an empty shell.
    pub fn reposition(&mut self)
        requires
            old(self).geometry_ok(),
        ensures
            final(self).geometry_ok(),
            old(self).wf() ==> final(self).wf(),
            Manager::same_config(*old(self), *final(self)),
            final(self).children@ == old(self).children@,
            final(self).timestamp == old(self).timestamp,
            final(self).finishing == old(self).finishing,
            final(self).mapped == (old(self).children@.len() > 0),
            final(self).log() == old(self).log() + Manager::reposition_log(
                *old(self),
                old(self).children@.len() as int,
            ),
    {
        let ghost pre = *self;
        let count = self.children.len();
        proof {
            assert(pre.children@.len() <= pre.children@.len() * pre.icon_size)
                by (nonlinear_arith)
                requires
                    pre.icon_size >= 1,
            ;
        }
        if count > 0 {
            let width: u16 = (count as u16) * self.icon_size;
            self.push_req(XRequest::ConfigureRect {
                window: self.window,
                x: self.anchor_x,
                y: self.anchor_y,
                width: width as u32,
                height: self.tray_height,
            });
            self.push_req(XRequest::MapWindow { window: self.window });
            self.mapped = true;
        } else {
            self.push_req(XRequest::UnmapWindow { window: self.window });
            self.mapped = false;
        }
        self.push_req(XRequest::Flush);
        proof {
            assert(self.log() =~= pre.log() + Manager::reposition_log(
                pre,
                pre.children@.len() as int,
            ));
        }
    }

    /// The requests a size check issues: none when the observed geometry
    /// already matches the icon grid, one resize plus a flush otherwise.
    pub open spec fn force_size_log(m: Manager, window: u32, dims: (u16, u16)) -> Seq<
        XRequestModel,
    > {
        if dims == (m.icon_size, m.icon_size) {
            Seq::<XRequestModel>::empty()
        } else {
            seq![
                XRequestModel::ConfigureSize {
                    window: window,
                    width: m.icon_size as u32,
                    height: m.icon_size as u32,
                },
                XRequestModel::Flush,
            ]
        }
    }

    /// Force a child window onto the icon grid, given its observed
    /// geometry.  A child that already has the right size causes no
    /// request at all.
    pub fn force_size(&mut self, window: u32, dims: (u16, u16))
        ensures
            Manager::same_state(*old(self), *final(self)),
            final(self).log() == old(self).log() + Manager::force_size_log(
                *old(self),
                window,
                dims,
            ),
            dims == (old(self).icon_size, old(self).icon_size) ==> *final(self) == *old(self),
            old(self).wf() ==> final(self).wf(),
    {
        let ghost pre = *self;
        if !(dims.0 == self.icon_size && dims.1 == self.icon_size) {
            self.push_req(XRequest::ConfigureSize {
                window,
                width: self.icon_size as u32,
                height: self.icon_size as u32,
            });
            self.push_req(XRequest::Flush);
            proof {
                assert(dims != (pre.icon_size, pre.icon_size));
                assert(self.log() =~= pre.log() + Manager::force_size_log(
                    pre,
                    window,
                    dims,
                ));
            }
        } else {
            proof {
                assert(dims == (pre.icon_size, pre.icon_size));
                assert(self.log() =~= pre.log() + Manager::force_size_log(
                    pre,
                    window,
                    dims,
                ));
            }
        }
    }

    /// Whether a claim by `m` succeeded, given the selection owner
    /// observed after the claim was executed.
    pub open spec fn claim_succeeds(m: Manager, owner_after: u32) -> bool {
        owner_after == m.window
    }

    /// The requests a successful claim issues: the `MANAGER` broadcast to
    /// the root window, announcing the new selection owner, followed by a
    /// flush.
    pub open spec fn manager_broadcast_log(m: Manager, timestamp: u32) -> Seq<XRequestModel> {
        seq![
            XRequestModel::SendClientMessage {
                destination: m.root,
                window: m.root,
                message_type: m.atoms.manager,
                data: seq![timestamp, m.atoms.net_system_tray_s0, m.window, 0u32, 0u32],
            },
            XRequestModel::Flush,
        ]
    }

    /// Complete a claim of the tray selection.
    ///
    /// The caller has issued `SetSelectionOwner` for the tray window with
    /// `timestamp` (as directed by a `ClaimSelection` response), re-queried
    /// the owner, and passes the observed owner in.  The claim succeeded
    /// exactly when the observed owner is the tray window itself; another
    /// manager may have raced and won.  Only on success is the timestamp
    /// recorded and the `MANAGER` message broadcast so that tray clients
    /// learn a manager exists.
    ///
    /// The timestamp comes from an observed `PropertyNotify` and is never
    /// invented, so it is a valid (nonzero) server timestamp.
    pub fn take_selection(&mut self, timestamp: u32, owner_after: u32) -> (ok: bool)
        requires
            old(self).wf(),
            !old(self).finishing,
            timestamp != 0,
        ensures
            final(self).wf(),
            ok == Manager::claim_succeeds(*old(self), owner_after),
            ok ==> {
                &&& Manager::same_config(*old(self), *final(self))
                &&& final(self).children@ == old(self).children@
                &&& final(self).finishing == old(self).finishing
                &&& final(self).mapped == old(self).mapped
                &&& final(self).timestamp == timestamp
                &&& final(self).log() == old(self).log() + Manager::manager_broadcast_log(
                    *old(self),
                    timestamp,
                )
            },
            !ok ==> *final(self) == *old(self),
    {
        let ghost pre = *self;
        let ok = owner_after == self.window;
        if ok {
            self.timestamp = timestamp;
            let mut data: Vec<u32> = Vec::new();
            data.push(timestamp);
            data.push(self.atoms.net_system_tray_s0);
            data.push(self.window);
            data.push(0);
            data.push(0);
            proof {
                assert(data@ =~= seq![
                    timestamp,
                    pre.atoms.net_system_tray_s0,
                    pre.window,
                    0u32,
                    0u32,
                ]);
            }
            self.push_req(XRequest::SendClientMessage {
                destination: self.root,
                window: self.root,
                message_type: self.atoms.manager,
                data,
            });
            self.push_req(XRequest::Flush);
            proof {
                assert(self.log() =~= pre.log() + Manager::manager_broadcast_log(pre, timestamp));
            }
        }
        ok
    }

    /// The configuration requests `create` issues, in order: the window
    /// itself, its name and class, the tray orientation, the dock window
    /// type, the tray visual, the taskbar-skip and sticky states, the
    /// delete-window and take-focus protocols, the undecorated hint, the
    /// compositor-shadow toggle, and a final flush.
    pub open spec fn create_log(m: Manager) -> Seq<XRequestModel> {
        seq![
            XRequestModel::CreateWindow {
                window: m.window,
                parent: m.root,
                x: 0,
                y: 0,
                width: m.icon_size,
                height: m.icon_size,
                back_pixel: m.bg,
                event_mask: EVENT_MASK_PROPERTY_CHANGE,
                override_redirect: true,
            },
            XRequestModel::ChangeProperty {
                mode: PropMode::Replace,
                window: m.window,
                property: XA_WM_NAME,
                property_type: XA_STRING,
                format: 8,
                payload: PropPayloadModel::Text("System Tray"@),
            },
            XRequestModel::ChangeProperty {
                mode: PropMode::Replace,
                window: m.window,
                property: XA_WM_CLASS,
                property_type: XA_STRING,
                format: 8,
                payload: PropPayloadModel::Text("traybar\u{0}traybar"@),
            },
            XRequestModel::ChangeProperty {
                mode: PropMode::Replace,
                window: m.window,
                property: m.atoms.net_system_tray_orientation,
                property_type: XA_CARDINAL,
                format: 32,
                payload: PropPayloadModel::Words(seq![0u32]),
            },
            XRequestModel::ChangeProperty {
                mode: PropMode::Replace,
                window: m.window,
                property: m.atoms.net_wm_window_type,
                property_type: XA_ATOM,
                format: 32,
                payload: PropPayloadModel::Words(seq![m.atoms.net_wm_window_type_dock]),
            },
            XRequestModel::ChangeProperty {
                mode: PropMode::Replace,
                window: m.window,
                property: m.atoms.net_system_tray_visual,
                property_type: XA_VISUALID,
                format: 32,
                payload: PropPayloadModel::Words(seq![m.visual]),
            },
            XRequestModel::ChangeProperty {
                mode: PropMode::Replace,
                window: m.window,
                property: m.atoms.net_wm_state,
                property_type: XA_ATOM,
                format: 32,
                payload: PropPayloadModel::Words(seq![m.atoms.net_wm_state_skip_taskbar]),
            },
            XRequestModel::ChangeProperty {
                mode: PropMode::Replace,
                window: m.window,
                property: m.atoms.wm_protocols,
                property_type: XA_ATOM,
                format: 32,
                payload: PropPayloadModel::Words(seq![m.atoms.wm_delete_window]),
            },
            XRequestModel::ChangeProperty {
                mode: PropMode::Append,
                window: m.window,
                property: m.atoms.wm_protocols,
                property_type: XA_ATOM,
                format: 32,
                payload: PropPayloadModel::Words(seq![m.atoms.wm_take_focus]),
            },
            XRequestModel::ChangeProperty {
                mode: PropMode::Append,
                window: m.window,
                property: m.atoms.net_wm_state,
                property_type: XA_ATOM,
                format: 32,
                payload: PropPayloadModel::Words(seq![m.atoms.net_wm_state_sticky]),
            },
            XRequestModel::ChangeProperty {
                mode: PropMode::Replace,
                window: m.window,
                property: m.atoms.motif_wm_hints,
                property_type: XA_INTEGER,
                format: 32,
                payload: PropPayloadModel::Words(seq![2u32, 0u32, 0u32, 0u32, 0u32]),
            },
            XRequestModel::ChangeProperty {
                mode: PropMode::Replace,
                window: m.window,
                property: m.atoms.compton_shadow,
                property_type: XA_CARDINAL,
                format: 32,
                payload: PropPayloadModel::Words(seq![0u32]),
            },
            XRequestModel::Flush,
        ]
    }

    /// Create and configure the tray window: an override-redirect
    /// input/output window on the icon grid, with the names, states,
    /// hints and protocols the tray publishes.  Pure configuration of one
    /// resource; the requests are fire-and-forget, as X treats them.
    pub fn create(&mut self)
        ensures
            Manager::same_state(*old(self), *final(self)),
            final(self).log() == old(self).log() + Manager::create_log(*old(self)),
            old(self).wf() ==> final(self).wf(),
    {
        let ghost pre = *self;
        self.push_req(XRequest::CreateWindow {
            window: self.window,
            parent: self.root,
            x: 0,
            y: 0,
            width: self.icon_size,
            height: self.icon_size,
            back_pixel: self.bg,
            event_mask: EVENT_MASK_PROPERTY_CHANGE,
            override_redirect: true,
        });
        self.set_property(
            XA_WM_NAME,
            XA_STRING,
            8,
            PropPayload::Text("System Tray".to_owned()),
        );
        self.set_property(
            XA_WM_CLASS,
            XA_STRING,
            8,
            PropPayload::Text("traybar\u{0}traybar".to_owned()),
        );
        let orientation = self.atoms.net_system_tray_orientation;
        self.set_property(orientation, XA_CARDINAL, 32, PropPayload::Words(word(0)));
        let window_type = self.atoms.net_wm_window_type;
        let dock = self.atoms.net_wm_window_type_dock;
        self.set_property(window_type, XA_ATOM, 32, PropPayload::Words(word(dock)));
        let visual_prop = self.atoms.net_system_tray_visual;
        let visual = self.visual;
        self.set_property(visual_prop, XA_VISUALID, 32, PropPayload::Words(word(visual)));
        let wm_state = self.atoms.net_wm_state;
        let skip_taskbar = self.atoms.net_wm_state_skip_taskbar;
        self.set_property(wm_state, XA_ATOM, 32, PropPayload::Words(word(skip_taskbar)));
        let protocols = self.atoms.wm_protocols;
        let delete_window = self.atoms.wm_delete_window;
        self.set_property(protocols, XA_ATOM, 32, PropPayload::Words(word(delete_window)));
        let take_focus = self.atoms.wm_take_focus;
        self.push_req(XRequest::ChangeProperty {
            mode: PropMode::Append,
            window: self.window,
            property: protocols,
            property_type: XA_ATOM,
            format: 32,
            payload: PropPayload::Words(word(take_focus)),
        });
        let sticky = self.atoms.net_wm_state_sticky;
        self.push_req(XRequest::ChangeProperty {
            mode: PropMode::Append,
            window: self.window,
            property: wm_state,
            property_type: XA_ATOM,
            format: 32,
            payload: PropPayload::Words(word(sticky)),
        });
        let motif = self.atoms.motif_wm_hints;
        let mut hints: Vec<u32> = Vec::new();
        hints.push(2);
        hints.push(0);
        hints.push(0);
        hints.push(0);
        hints.push(0);
        proof {
            assert(hints@ =~= seq![2u32, 0u32, 0u32, 0u32, 0u32]);
        }
        self.set_property(motif, XA_INTEGER, 32, PropPayload::Words(hints));
        let shadow = self.atoms.compton_shadow;
        self.set_property(shadow, XA_CARDINAL, 32, PropPayload::Words(word(0)));
        self.push_req(XRequest::Flush);
        proof {
            assert(self.log() =~= pre.log() + Manager::create_log(pre));
        }
    }

    /// The requests `adopt` issues before the relayout: subscribe to the
    /// child's structure events, reparent it into the tray at its slot,
    /// map it, check its size, and flush.
    pub open spec fn adopt_log(m: Manager, window: u32, dims: Option<(u16, u16)>) -> Seq<
        XRequestModel,
    > {
        seq![
            XRequestModel::SetEventMask { window, mask: EVENT_MASK_STRUCTURE_NOTIFY },
            XRequestModel::Reparent {
                window,
                parent: m.window,
                x: (m.children@.len() * m.icon_size) as i16,
                y: 0,
            },
            XRequestModel::MapWindow { window },
        ] + (match dims {
            Option::Some(d) => Manager::force_size_log(m, window, d),
            Option::None => Seq::<XRequestModel>::empty(),
        }) + seq![XRequestModel::Flush] + Manager::reposition_log(m, m.children@.len() as int + 1)
    }

    /// How `adopt` changes the state: the window is appended to the
    /// children, the tray is mapped, and the adoption requests are
    /// appended to the buffer.
    pub open spec fn adopt_rel(
        pre: Manager,
        post: Manager,
        window: u32,
        dims: Option<(u16, u16)>,
    ) -> bool {
        &&& Manager::same_config(pre, post)
        &&& post.children@ == pre.children@.push(window)
        &&& post.timestamp == pre.timestamp
        &&& post.finishing == pre.finishing
        &&& post.mapped
        &&& post.log() == pre.log() + Manager::adopt_log(pre, window, dims)
    }

    /// Dock a window into the next free slot.
    ///
    /// `dims` is the child's current geometry, as queried by the caller;
    /// `None` means the query failed (the client vanished between its
    /// dock request and the query), in which case the size check is
    /// skipped — the child's eventual `DestroyNotify` will remove it.
    ///
    /// A dock request arrives only after the `MANAGER` broadcast, so the
    /// selection is claimed, and a conforming client never docks the same
    /// window twice.
    pub fn adopt(&mut self, window: u32, dims: Option<(u16, u16)>)
        requires
            old(self).wf(),
            !old(self).finishing,
            old(self).timestamp != 0,
            window != old(self).window,
            !old(self).children@.contains(window),
            (old(self).children@.len() + 1) * old(self).icon_size <= MAX_TRAY_EXTENT,
        ensures
            final(self).wf(),
            Manager::adopt_rel(*old(self), *final(self), window, dims),
    {
        let ghost pre = *self;
        let count = self.children.len();
        proof {
            assert(count * pre.icon_size <= (count + 1) * pre.icon_size) by (nonlinear_arith)
                requires
                    pre.icon_size >= 0,
            ;
            assert(count + 1 <= (count + 1) * pre.icon_size) by (nonlinear_arith)
                requires
                    pre.icon_size >= 1,
            ;
        }
        let offset: i16 = ((count as u16) * self.icon_size) as i16;
        self.push_req(XRequest::SetEventMask { window, mask: EVENT_MASK_STRUCTURE_NOTIFY });
        self.push_req(XRequest::Reparent { window, parent: self.window, x: offset, y: 0 });
        self.push_req(XRequest::MapWindow { window });
        if let Option::Some(d) = dims {
            self.force_size(window, d);
        }
        self.push_req(XRequest::Flush);
        self.children.push(window);
        proof {
            assert(self.children@.no_duplicates());
            assert(!self.children@.contains(self.window));
        }
        self.reposition();
        proof {
            assert(self.log() =~= pre.log() + Manager::adopt_log(pre, window, dims));
        }
    }

    /// The relayout requests `forget` issues for the remaining children:
    /// one x-position update per child, slot by slot.
    pub open spec fn relayout_log(children: Seq<u32>, icon_size: u16) -> Seq<XRequestModel>
        decreases children.len(),
    {
        if children.len() == 0 {
            Seq::<XRequestModel>::empty()
        } else {
            Manager::relayout_log(children.drop_last(), icon_size) + seq![
                XRequestModel::ConfigureX {
                    window: children.last(),
                    x: ((children.len() - 1) * icon_size) as u32,
                },
            ]
        }
    }

    /// The requests `forget` issues: the full relayout of the remaining
    /// children, then the tray's own geometry update.
    /// The predicate that keeps every docked window but `window`.
    pub open spec fn not_window(window: u32) -> spec_fn(u32) -> bool {
        |c: u32| c != window
    }

    pub open spec fn forget_log(m: Manager, window: u32) -> Seq<XRequestModel> {
        let kept = m.children@.filter(Manager::not_window(window));
        Manager::relayout_log(kept, m.icon_size) + Manager::reposition_log(m, kept.len() as int)
    }

    /// How `forget` changes the state: the window is removed from the
    /// children, slots are re-derived with no gaps, and the relayout
    /// requests are appended.
    pub open spec fn forget_rel(pre: Manager, post: Manager, window: u32) -> bool {
        &&& Manager::same_config(pre, post)
        &&& post.children@ == pre.children@.filter(Manager::not_window(window))
        &&& post.timestamp == pre.timestamp
        &&& post.finishing == pre.finishing
        &&& post.mapped == (post.children@.len() > 0)
        &&& post.log() == pre.log() + Manager::forget_log(pre, window)
    }

    /// Remove a window from the tray (it was destroyed, or reparented
    /// away externally).  Every remaining child is re-positioned to its
    /// re-derived slot — an O(n) full relayout, acceptable because tray
    /// occupancy is small — and the tray geometry is recomputed.
    pub fn forget(&mut self, window: u32)
        requires
            old(self).wf(),
            !old(self).finishing,
        ensures
            final(self).wf(),
            Manager::forget_rel(*old(self), *final(self), window),
    {
        let ghost pre = *self;
        let ghost pred = Manager::not_window(window);
        let mut kept: Vec<u32> = Vec::new();
        let mut i: usize = 0;
        proof {
            reveal(Seq::filter);
            assert(pre.children@.take(0) =~= Seq::<u32>::empty());
            assert(kept@ =~= pre.children@.take(0).filter(pred));
        }
        while i < self.children.len()
            invariant
                i <= self.children.len(),
                *self == pre,
                kept@ == self.children@.take(i as int).filter(pred),
            decreases self.children.len() - i,
        {
            let c = self.children[i];
            proof {
                reveal(Seq::filter);
                assert(self.children@.take(i + 1).drop_last() =~= self.children@.take(i as int));
                assert(self.children@.take(i + 1).last() == c);
            }
            if c != window {
                kept.push(c);
            }
            proof {
                reveal(Seq::filter);
                assert(kept@ =~= self.children@.take(i + 1).filter(pred));
            }
            i = i + 1;
        }
        proof {
            assert(self.children@.take(self.children@.len() as int) =~= self.children@);
            lemma_filter_keeps_no_duplicates(pre.children@, pred);
            pre.children@.lemma_filter_len(pred);
            assert(!kept@.contains(pre.window));
        }
        self.children = kept;
        let mut idx: usize = 0;
        proof {
            assert(self.children@.take(0) =~= Seq::<u32>::empty());
            assert(self.log() =~= pre.log() + Manager::relayout_log(
                self.children@.take(0),
                pre.icon_size,
            ));
        }
        while idx < self.children.len()
            invariant
                idx <= self.children.len(),
                Manager::same_config(pre, *self),
                self.timestamp == pre.timestamp,
                self.finishing == pre.finishing,
                self.mapped == pre.mapped,
                self.children@ == pre.children@.filter(pred),
                self.children@.len() <= pre.children@.len(),
                self.log() == pre.log() + Manager::relayout_log(
                    self.children@.take(idx as int),
                    pre.icon_size,
                ),
            decreases self.children.len() - idx,
        {
            proof {
                assert(idx * pre.icon_size <= MAX_TRAY_EXTENT && idx <= MAX_TRAY_EXTENT)
                    by (nonlinear_arith)
                    requires
                        0 <= idx <= pre.children@.len(),
                        pre.icon_size >= 1,
                        pre.children@.len() * pre.icon_size <= MAX_TRAY_EXTENT,
                ;
                assert(self.children@.take(idx + 1).drop_last() =~= self.children@.take(
                    idx as int,
                ));
                assert(self.children@.take(idx + 1).last() == self.children@[idx as int]);
            }
            let c = self.children[idx];
            let xpos: u32 = (idx as u32) * (self.icon_size as u32);
            self.push_req(XRequest::ConfigureX { window: c, x: xpos });
            proof {
                assert(self.log() =~= pre.log() + Manager::relayout_log(
                    self.children@.take(idx + 1),
                    pre.icon_size,
                ));
            }
            idx = idx + 1;
        }
        proof {
            assert(self.children@.take(self.children@.len() as int) =~= self.children@);
            assert(self.children@.len() * self.icon_size <= pre.children@.len() * pre.icon_size)
                by (nonlinear_arith)
                requires
                    self.children@.len() <= pre.children@.len(),
                    self.icon_size == pre.icon_size,
                    pre.icon_size >= 0,
            ;
        }
        self.reposition();
        proof {
            assert(self.log() =~= pre.log() + Manager::forget_log(pre, window));
        }
    }

    /// The per-child requests `finish` issues, in docking order: stop
    /// observing the child, unmap it, and reparent it back to the screen
    /// root so it survives the tray's destruction.
    pub open spec fn finish_children_log(children: Seq<u32>, root: u32) -> Seq<XRequestModel>
        decreases children.len(),
    {
        if children.len() == 0 {
            Seq::<XRequestModel>::empty()
        } else {
            Manager::finish_children_log(children.drop_last(), root) + seq![
                XRequestModel::SetEventMask { window: children.last(), mask: EVENT_MASK_NO_EVENT },
                XRequestModel::UnmapWindow { window: children.last() },
                XRequestModel::Reparent { window: children.last(), parent: root, x: 0, y: 0 },
            ]
        }
    }

    /// The requests `finish` issues: every child is released, then the
    /// tray window keeps only structure notifications (to confirm its own
    /// destruction), is destroyed, and the buffer is flushed.
    pub open spec fn finish_log(m: Manager) -> Seq<XRequestModel> {
        Manager::finish_children_log(m.children@, m.root) + seq![
            XRequestModel::SetEventMask {
                window: m.window,
                mask: EVENT_MASK_STRUCTURE_NOTIFY,
            },
            XRequestModel::DestroyWindow { window: m.window },
            XRequestModel::Flush,
        ]
    }

    /// How `finish` changes the state: shutdown has started, no child
    /// remains in the sequence, and the release requests are appended.
    pub open spec fn finish_rel(pre: Manager, post: Manager) -> bool {
        &&& Manager::same_config(pre, post)
        &&& post.finishing
        &&& post.children@ == Seq::<u32>::empty()
        &&& !post.mapped
        &&& post.timestamp == pre.timestamp
        &&& post.log() == pre.log() + Manager::finish_log(pre)
    }

    /// Start the graceful shutdown: return every docked icon to the
    /// screen root, then schedule the tray window's destruction — exactly
    /// once, since a finishing manager never finishes again.
    pub fn finish(&mut self)
        requires
            old(self).wf(),
            !old(self).finishing,
        ensures
            final(self).wf(),
            Manager::finish_rel(*old(self), *final(self)),
    {
        let ghost pre = *self;
        self.finishing = true;
        let mut i: usize = 0;
        proof {
            assert(self.children@.take(0) =~= Seq::<u32>::empty());
            assert(self.log() =~= pre.log() + Manager::finish_children_log(
                self.children@.take(0),
                pre.root,
            ));
        }
        while i < self.children.len()
            invariant
                i <= self.children.len(),
                Manager::same_config(pre, *self),
                self.children@ == pre.children@,
                self.timestamp == pre.timestamp,
                self.finishing,
                self.mapped == pre.mapped,
                self.log() == pre.log() + Manager::finish_children_log(
                    self.children@.take(i as int),
                    pre.root,
                ),
            decreases self.children.len() - i,
        {
            proof {
                assert(self.children@.take(i + 1).drop_last() =~= self.children@.take(i as int));
                assert(self.children@.take(i + 1).last() == self.children@[i as int]);
            }
            let c = self.children[i];
            self.push_req(XRequest::SetEventMask { window: c, mask: EVENT_MASK_NO_EVENT });
            self.push_req(XRequest::UnmapWindow { window: c });
            self.push_req(XRequest::Reparent { window: c, parent: self.root, x: 0, y: 0 });
            proof {
                assert(self.log() =~= pre.log() + Manager::finish_children_log(
                    self.children@.take(i + 1),
                    pre.root,
                ));
            }
            i = i + 1;
        }
        proof {
            assert(self.children@.take(self.children@.len() as int) =~= self.children@);
        }
        self.push_req(XRequest::SetEventMask {
            window: self.window,
            mask: EVENT_MASK_STRUCTURE_NOTIFY,
        });
        self.push_req(XRequest::DestroyWindow { window: self.window });
        self.push_req(XRequest::Flush);
        self.children = Vec::new();
        self.mapped = false;
        proof {
            assert(self.children@ =~= Seq::<u32>::empty());
            assert(self.log() =~= pre.log() + Manager::finish_log(pre));
        }
    }

    /// How a size check changes the state: nothing but the buffer, which
    /// gains the resize exactly when the observed geometry differs from
    /// the icon grid.
    pub open spec fn force_size_rel(pre: Manager, post: Manager, window: u32, dims: (
        u16,
        u16,
    )) -> bool {
        &&& Manager::same_state(pre, post)
        &&& post.log() == pre.log() + Manager::force_size_log(pre, window, dims)
    }

    /// What a conforming event stream guarantees about an event, given
    /// the state it arrives in.  A tray client message carries one of the
    /// three protocol opcodes — anything else is a protocol violation no
    /// conforming client can produce — and a dock request arrives only
    /// after the `MANAGER` broadcast, for a window that is not already
    /// docked and still fits the 16-bit layout range.
    pub open spec fn event_ok(m: Manager, e: TrayEvent) -> bool {
        match e {
            TrayEvent::ClientMessage { message_type, opcode, window } => {
                message_type == m.atoms.net_system_tray_opcode && !m.finishing ==> {
                    &&& opcode <= SYSTEM_TRAY_CANCEL_MESSAGE
                    &&& (opcode == SYSTEM_TRAY_REQUEST_DOCK ==> {
                        &&& m.timestamp != 0
                        &&& window != m.window
                        &&& !m.children@.contains(window)
                        &&& (m.children@.len() + 1) * m.icon_size <= MAX_TRAY_EXTENT
                    })
                }
            },
            _ => true,
        }
    }

    /// The event state machine, in one relation: how `handle_event`
    /// changes the state and what it answers, for every event.
    ///
    /// While finishing, only the destruction of the tray window itself
    /// matters: it ends the run with exit code 0.  In the normal state,
    /// the first `PropertyNotify` supplies the timestamp for the
    /// selection claim; tray opcodes dispatch per the docking protocol;
    /// reparent, destroy and configure notifications maintain the docked
    /// set; `SelectionClear` starts the shutdown; everything else is
    /// ignored.
    pub open spec fn handle_spec(
        pre: Manager,
        post: Manager,
        e: TrayEvent,
        dock_dims: Option<(u16, u16)>,
        r: EventResponse,
    ) -> bool {
        if pre.finishing {
            &&& post == pre
            &&& r == (match e {
                TrayEvent::DestroyNotify { window } => if window == pre.window {
                    EventResponse::Exit(0)
                } else {
                    EventResponse::KeepGoing
                },
                _ => EventResponse::KeepGoing,
            })
        } else {
            match e {
                TrayEvent::PropertyNotify { window, atom, time } => {
                    &&& post == pre
                    &&& r == (if pre.timestamp == 0 {
                        EventResponse::ClaimSelection {
                            selection: pre.atoms.net_system_tray_s0,
                            owner: pre.window,
                            timestamp: time,
                        }
                    } else {
                        EventResponse::KeepGoing
                    })
                },
                TrayEvent::ClientMessage { message_type, opcode, window } => {
                    if message_type == pre.atoms.net_system_tray_opcode && opcode
                        == SYSTEM_TRAY_REQUEST_DOCK {
                        &&& Manager::adopt_rel(pre, post, window, dock_dims)
                        &&& r == EventResponse::KeepGoing
                    } else {
                        &&& post == pre
                        &&& r == EventResponse::KeepGoing
                    }
                },
                TrayEvent::ReparentNotify { window, parent } => {
                    if parent != pre.window {
                        &&& Manager::forget_rel(pre, post, window)
                        &&& r == EventResponse::KeepGoing
                    } else {
                        &&& post == pre
                        &&& r == EventResponse::KeepGoing
                    }
                },
                TrayEvent::DestroyNotify { window } => {
                    &&& Manager::forget_rel(pre, post, window)
                    &&& r == EventResponse::KeepGoing
                },
                TrayEvent::ConfigureNotify { window, width, height } => {
                    &&& Manager::force_size_rel(pre, post, window, (width, height))
                    &&& r == EventResponse::KeepGoing
                },
                TrayEvent::SelectionClear => {
                    &&& Manager::finish_rel(pre, post)
                    &&& r == EventResponse::KeepGoing
                },
                TrayEvent::Other => {
                    &&& post == pre
                    &&& r == EventResponse::KeepGoing
                },
            }
        }
    }

    /// Drive the state machine with one decoded event.
    ///
    /// `dock_dims` is the current geometry of the window named in a dock
    /// request, queried by the caller before dispatching (`None` when the
    /// query failed or the event is no dock request); it is ignored for
    /// every other event.
    pub fn handle_event(&mut self, event: TrayEvent, dock_dims: Option<(u16, u16)>) -> (r:
        EventResponse)
        requires
            old(self).wf(),
            Manager::event_ok(*old(self), event),
        ensures
            final(self).wf(),
            Manager::handle_spec(*old(self), *final(self), event, dock_dims, r),
    {
        if self.finishing {
            self.handle_event_finishing(event)
        } else {
            self.handle_event_normal(event, dock_dims)
        }
    }

    /// Normal-state transitions, keyed on the event kind.
    fn handle_event_normal(&mut self, event: TrayEvent, dock_dims: Option<(u16, u16)>) -> (r:
        EventResponse)
        requires
            old(self).wf(),
            !old(self).finishing,
            Manager::event_ok(*old(self), event),
        ensures
            final(self).wf(),
            Manager::handle_spec(*old(self), *final(self), event, dock_dims, r),
    {
        match event {
            TrayEvent::PropertyNotify { window: _, atom: _, time } => {
                if self.timestamp == 0 {
                    EventResponse::ClaimSelection {
                        selection: self.atoms.net_system_tray_s0,
                        owner: self.window,
                        timestamp: time,
                    }
                } else {
                    EventResponse::KeepGoing
                }
            },
            TrayEvent::ClientMessage { message_type, opcode, window } => {
                if message_type == self.atoms.net_system_tray_opcode
                    && opcode == SYSTEM_TRAY_REQUEST_DOCK {
                    self.adopt(window, dock_dims);
                }
                EventResponse::KeepGoing
            },
            TrayEvent::ReparentNotify { window, parent } => {
                if parent != self.window {
                    self.forget(window);
                }
                EventResponse::KeepGoing
            },
            TrayEvent::DestroyNotify { window } => {
                self.forget(window);
                EventResponse::KeepGoing
            },
            TrayEvent::ConfigureNotify { window, width, height } => {
                self.force_size(window, (width, height));
                EventResponse::KeepGoing
            },
            TrayEvent::SelectionClear => {
                self.finish();
                EventResponse::KeepGoing
            },
            TrayEvent::Other => EventResponse::KeepGoing,
        }
    }

    /// Finishing-state transitions: only the destruction of the tray
    /// window itself is meaningful; it ends the run successfully.
    fn handle_event_finishing(&mut self, event: TrayEvent) -> (r: EventResponse)
        requires
            old(self).wf(),
            old(self).finishing,
        ensures
            final(self).wf(),
            *final(self) == *old(self),
            Manager::handle_spec(*old(self), *final(self), event, Option::None, r),
            forall|dims: Option<(u16, u16)>|
                Manager::handle_spec(*old(self), *final(self), event, dims, r),
    {
        if let TrayEvent::DestroyNotify { window } = event {
            if window == self.window {
                return EventResponse::Exit(0);
            }
        }
        EventResponse::KeepGoing
    }
}

/// How many destruction requests for `window` a request sequence holds.
pub open spec fn count_destroys(log: Seq<XRequestModel>, window: u32) -> nat
    decreases log.len(),
{
    if log.len() == 0 {
        0
    } else {
        count_destroys(log.drop_last(), window) + (if log.last() == (XRequestModel::DestroyWindow {
            window,
        }) {
            1nat
        } else {
            0nat
        })
    }
}

/// Destruction counts add up over concatenation.
proof fn lemma_count_destroys_add(a: Seq<XRequestModel>, b: Seq<XRequestModel>, w: u32)
    ensures
        count_destroys(a + b, w) == count_destroys(a, w) + count_destroys(b, w),
    decreases b.len(),
{
    if b.len() == 0 {
        assert(a + b =~= a);
    } else {
        lemma_count_destroys_add(a, b.drop_last(), w);
        assert((a + b).drop_last() =~= a + b.drop_last());
        assert((a + b).last() == b.last());
    }
}

/// Releasing the children destroys nothing.
proof fn lemma_finish_children_no_destroy(children: Seq<u32>, root: u32, w: u32)
    ensures
        count_destroys(Manager::finish_children_log(children, root), w) == 0,
    decreases children.len(),
{
    if children.len() > 0 {
        lemma_finish_children_no_destroy(children.drop_last(), root, w);
        let c = children.last();
        let step = seq![
            XRequestModel::SetEventMask { window: c, mask: EVENT_MASK_NO_EVENT },
            XRequestModel::UnmapWindow { window: c },
            XRequestModel::Reparent { window: c, parent: root, x: 0, y: 0 },
        ];
        lemma_count_destroys_add(
            Manager::finish_children_log(children.drop_last(), root),
            step,
            w,
        );
        reveal_with_fuel(count_destroys, 5);
        assert(step.drop_last() =~= step.take(2));
        assert(step.take(2).drop_last() =~= step.take(1));
        assert(step.take(1).drop_last() =~= step.take(0));
        assert(step.take(0).len() == 0);
        assert(count_destroys(step, w) == 0);
    }
}

/// Releasing the children reparents each of them back to the root.
proof fn lemma_finish_children_reparents(children: Seq<u32>, root: u32)
    ensures
        forall|i: int|
            0 <= i < children.len() ==> #[trigger] Manager::finish_children_log(
                children,
                root,
            ).contains(
                (XRequestModel::Reparent { window: children[i], parent: root, x: 0, y: 0 }),
            ),
    decreases children.len(),
{
    if children.len() > 0 {
        let prefix = Manager::finish_children_log(children.drop_last(), root);
        let whole = Manager::finish_children_log(children, root);
        lemma_finish_children_reparents(children.drop_last(), root);
        assert forall|i: int| 0 <= i < children.len() implies #[trigger] Manager::finish_children_log(
            children,
            root,
        ).contains(
            (XRequestModel::Reparent { window: children[i], parent: root, x: 0, y: 0 }),
        ) by {
            let target = (XRequestModel::Reparent { window: children[i], parent: root, x: 0, y: 0 });
            if i < children.len() - 1 {
                assert(children.drop_last()[i] == children[i]);
                assert(prefix.contains(target));
                let k = choose|k: int| 0 <= k < prefix.len() && prefix[k] == target;
                assert(whole[k] == target);
            } else {
                assert(whole[prefix.len() as int + 2] == target);
            }
        }
    }
}

/// **Visibility invariant**: in the normal state the tray window is
/// mapped exactly when at least one child is docked.  Every operation
/// preserves the invariant, so this holds after any sequence of adopt
/// and forget calls.
pub proof fn lemma_visibility_invariant(m: Manager)
    requires
        m.wf(),
        !m.finishing,
    ensures
        m.mapped <==> m.children@.len() > 0,
{
}

/// **Slot contiguity**: the slot of a docked window is its position in
/// the sequence, so the occupied slots are exactly `0 .. n-1`, without
/// gaps; and a relayout configures exactly those slots, each child at
/// `slot * icon_size`.
pub proof fn lemma_slot_contiguity(m: Manager)
    requires
        m.wf(),
    ensures
        forall|i: int|
            0 <= i < m.children@.len() ==> #[trigger] m.children@.index_of(m.children@[i]) == i,
        Manager::relayout_log(m.children@, m.icon_size).len() == m.children@.len(),
        forall|i: int|
            0 <= i < m.children@.len() ==> #[trigger] Manager::relayout_log(
                m.children@,
                m.icon_size,
            )[i] == (XRequestModel::ConfigureX {
                window: m.children@[i],
                x: (i * m.icon_size) as u32,
            }),
{
    assert forall|i: int| 0 <= i < m.children@.len() implies #[trigger] m.children@.index_of(
        m.children@[i],
    ) == i by {
        let w = m.children@[i];
        assert(exists|k: int| 0 <= k < m.children@.len() && m.children@[k] == w);
        let j = m.children@.index_of(w);
        assert(0 <= j < m.children@.len() && m.children@[j] == w);
        if j != i {
            assert(false);
        }
    }
    lemma_relayout_slots(m.children@, m.icon_size);
}

/// A relayout writes one x-position per child, slot by slot.
proof fn lemma_relayout_slots(children: Seq<u32>, icon_size: u16)
    ensures
        Manager::relayout_log(children, icon_size).len() == children.len(),
        forall|i: int|
            0 <= i < children.len() ==> #[trigger] Manager::relayout_log(children, icon_size)[i]
                == (XRequestModel::ConfigureX {
                window: children[i],
                x: (i * icon_size) as u32,
            }),
    decreases children.len(),
{
    if children.len() > 0 {
        lemma_relayout_slots(children.drop_last(), icon_size);
    }
}

/// **Single ownership claim**: whatever owner the server ends up with,
/// two managers with distinct tray windows cannot both observe
/// themselves as that owner, so at most one `take_selection` succeeds.
pub proof fn lemma_single_ownership(a: Manager, b: Manager, observed_owner: u32)
    requires
        a.window != b.window,
    ensures
        !(Manager::claim_succeeds(a, observed_owner) && Manager::claim_succeeds(
            b,
            observed_owner,
        )),
{
}

/// **Finishing returns icons**: the shutdown sequence reparents every
/// docked window back to the screen root, and destroys the tray window
/// exactly once.  (That no child remains docked afterwards is part of
/// `finish`'s own contract: the child sequence is empty.)
pub proof fn lemma_finish_returns_icons(m: Manager)
    ensures
        forall|i: int|
            0 <= i < m.children@.len() ==> #[trigger] Manager::finish_log(m).contains(
                (XRequestModel::Reparent { window: m.children@[i], parent: m.root, x: 0, y: 0 }),
            ),
        count_destroys(Manager::finish_log(m), m.window) == 1,
{
    let prefix = Manager::finish_children_log(m.children@, m.root);
    let tail = seq![
        XRequestModel::SetEventMask { window: m.window, mask: EVENT_MASK_STRUCTURE_NOTIFY },
        XRequestModel::DestroyWindow { window: m.window },
        XRequestModel::Flush,
    ];
    lemma_finish_children_reparents(m.children@, m.root);
    lemma_finish_children_no_destroy(m.children@, m.root, m.window);
    lemma_count_destroys_add(prefix, tail, m.window);
    reveal_with_fuel(count_destroys, 5);
    assert(tail.drop_last() =~= tail.take(2));
    assert(tail.take(2).drop_last() =~= tail.take(1));
    assert(tail.take(1).drop_last() =~= tail.take(0));
    assert(tail.take(0).len() == 0);
    assert(count_destroys(tail, m.window) == 1);
    assert forall|i: int| 0 <= i < m.children@.len() implies #[trigger] Manager::finish_log(
        m,
    ).contains(
        (XRequestModel::Reparent { window: m.children@[i], parent: m.root, x: 0, y: 0 }),
    ) by {
        let target = (XRequestModel::Reparent { window: m.children@[i], parent: m.root, x: 0, y: 0 });
        assert(prefix.contains(target));
        let k = choose|k: int| 0 <= k < prefix.len() && prefix[k] == target;
        assert(Manager::finish_log(m)[k] == target);
    }
}

/// A filter of a duplicate-free sequence is duplicate-free and keeps
/// only elements of the sequence it filtered.
proof fn lemma_filter_keeps_no_duplicates(s: Seq<u32>, pred: spec_fn(u32) -> bool)
    requires
        s.no_duplicates(),
    ensures
        s.filter(pred).no_duplicates(),
        forall|x: u32| #[trigger] s.filter(pred).contains(x) ==> s.contains(x),
    decreases s.len(),
{
    reveal(Seq::filter);
    if s.len() > 0 {
        let rest = s.drop_last();
        let last = s.last();
        assert(rest.no_duplicates());
        lemma_filter_keeps_no_duplicates(rest, pred);
        assert forall|x: u32| rest.contains(x) implies s.contains(x) by {
            let k = choose|k: int| 0 <= k < rest.len() && rest[k] == x;
            assert(s[k] == x);
        }
        if pred(last) {
            assert(!rest.filter(pred).contains(last)) by {
                if rest.filter(pred).contains(last) {
                    assert(rest.contains(last));
                    let k = choose|k: int| 0 <= k < rest.len() && rest[k] == last;
                    assert(s[k] == s[s.len() - 1]);
                    assert(false);
                }
            }
            assert(s.filter(pred) == rest.filter(pred).push(last));
            assert forall|x: u32| #[trigger] s.filter(pred).contains(x) implies s.contains(x) by {
                let k = choose|k: int| 0 <= k < s.filter(pred).len() && s.filter(pred)[k] == x;
                if k < rest.filter(pred).len() {
                    assert(rest.filter(pred).contains(x));
                } else {
                    assert(x == last);
                }
            }
        } else {
            assert(s.filter(pred) == rest.filter(pred));
        }
    }
}

/// A one-word property payload.
fn word(w: u32) -> (r: Vec<u32>)
    ensures
        r@ == seq![w],
{
    let mut r: Vec<u32> = Vec::new();
    r.push(w);
    proof {
        assert(r@ =~= seq![w]);
    }
    r
}

} // verus!

