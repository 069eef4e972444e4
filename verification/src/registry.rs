//! The service registry: the single, internally synchronized authority over
//! which capabilities exist and which connections receive their output.
//!
//! The registry owns every [`Service`] and every admitted [`Connection`],
//! allocates connection identifiers from a monotone counter seeded with a
//! randomized positive offset, applies the default-admission rule (a fresh
//! peer gets the primary monitor and the non-video services its denylist
//! allows, never a secondary monitor or camera feed), and mediates every
//! later subscription change. Callers hold it behind their own lock;
//! every operation here is one atomic check-then-act region.

use vstd::prelude::*;

use crate::connection::{ConnState, Connection, OutboundMessage};
use crate::service::{Service, WorkerStatus};
use crate::service_name::{
    camera_name, monitor_name, spec_camera_name, spec_monitor_name, ServiceName, VideoSource,
    PRIMARY_CAMERA_INDEX,
};

verus! {

/// The service registry and connection table of one host process.
pub struct Server {
    /// The registered services; names are unique.
    pub services: Vec<Service>,
    /// The admitted connections; identifiers are unique and were all
    /// produced by this registry's allocator.
    pub connections: Vec<Connection>,
    /// The identifier allocator: the last value handed out (or the seed
    /// offset if none was). Strictly increasing for the process lifetime.
    pub id_count: i32,
    /// The display index designated as the default admission target.
    pub primary_display: usize,
    /// Whether capability discovery found a primary camera.
    pub camera_present: bool,
}

impl Server {
    /// Registry well-formedness: every service is well formed, service
    /// names are unique, connection identifiers are unique, and every
    /// connection identifier came from the allocator (is at most
    /// `id_count`).
    pub open spec fn wf(&self) -> bool {
        &&& forall|i: int|
            0 <= i < self.services@.len() ==> (#[trigger] self.services@[i]).wf()
        &&& forall|i: int, j: int|
            0 <= i < j < self.services@.len() ==> (#[trigger] self.services@[i]).name != (
            #[trigger] self.services@[j]).name
        &&& forall|i: int, j: int|
            0 <= i < j < self.connections@.len() ==> (#[trigger] self.connections@[i]).id != (
            #[trigger] self.connections@[j]).id
        &&& forall|i: int|
            0 <= i < self.connections@.len() ==> (#[trigger] self.connections@[i]).id
                <= self.id_count
    }

    /// Whether a service with this name is registered.
    pub open spec fn has_service(&self, n: ServiceName) -> bool {
        exists|i: int| 0 <= i < self.services@.len() && (#[trigger] self.services@[i]).name == n
    }

    /// Whether connection `c` is subscribed to the service named `n`.
    pub open spec fn subscribed(&self, n: ServiceName, c: i32) -> bool {
        exists|i: int|
            0 <= i < self.services@.len() && (#[trigger] self.services@[i]).name == n
                && self.services@[i].is_subscribed(c)
    }

    /// Whether a connection with identifier `id` is registered.
    pub open spec fn has_connection(&self, id: i32) -> bool {
        exists|i: int|
            0 <= i < self.connections@.len() && (#[trigger] self.connections@[i]).id == id
    }

    /// A new registry with the base services (audio, clipboard, and the
    /// input-mirroring trio unless the platform embeds the cursor in
    /// captured frames), no connections, and the identifier counter seeded
    /// from `seed` with a positive offset, so identifiers do not collide
    /// across restarts of the same peer session.
    pub fn new(seed: u32, primary_display: usize, camera_present: bool, cursor_embedded: bool) -> (
        s: Server)
        ensures
            s.wf(),
            s.connections@.len() == 0,
            1000 <= s.id_count < 2000,
            s.id_count == seed % 1000 + 1000,
            s.primary_display == primary_display,
            s.camera_present == camera_present,
            s.has_service(ServiceName::Audio),
            s.has_service(ServiceName::Clipboard),
            s.has_service(ServiceName::Cursor) == !cursor_embedded,
            s.has_service(ServiceName::Pos) == !cursor_embedded,
            s.has_service(ServiceName::WindowFocus) == !cursor_embedded,
            forall|n: ServiceName| #[trigger] n.spec_is_video() ==> !s.has_service(n),
            !s.has_service(ServiceName::Printer),
            forall|i: int|
                0 <= i < s.services@.len() ==> (#[trigger] s.services@[i]).subscribers@.len() == 0
                    && s.services@[i].worker == WorkerStatus::Idle && s.services@[i].ok,
    {
        let mut services: Vec<Service> = Vec::new();
        services.push(Service::new(ServiceName::Audio));
        services.push(Service::new(ServiceName::Clipboard));
        if !cursor_embedded {
            services.push(Service::new(ServiceName::Cursor));
            services.push(Service::new(ServiceName::Pos));
            services.push(Service::new(ServiceName::WindowFocus));
        }
        let offset: u32 = seed % 1000 + 1000;
        let s = Server {
            services,
            connections: Vec::new(),
            id_count: offset as i32,
            primary_display,
            camera_present,
        };
        proof {
            assert(s.services@[0].name == ServiceName::Audio);
            assert(s.services@[1].name == ServiceName::Clipboard);
            if !cursor_embedded {
                assert(s.services@[2].name == ServiceName::Cursor);
                assert(s.services@[3].name == ServiceName::Pos);
                assert(s.services@[4].name == ServiceName::WindowFocus);
            }
        }
        s
    }

    /// Allocate a fresh connection identifier: the next counter value,
    /// never handed out before and held by no registered connection.
    /// Wraparound of the 32-bit counter is outside the model, so the
    /// counter must not stand at its maximum.
    pub fn get_new_id(&mut self) -> (r: i32)
        requires
            old(self).wf(),
            old(self).id_count < i32::MAX,
        ensures
            final(self).wf(),
            r == old(self).id_count + 1,
            *final(self) == (Server { id_count: r, ..*old(self) }),
            !old(self).has_connection(r),
    {
        self.id_count = self.id_count + 1;
        self.id_count
    }

    /// The position of the service named `name`, if one is registered.
    fn find_service(&self, name: ServiceName) -> (r: Option<usize>)
        ensures
            match r {
                Some(i) => i < self.services@.len() && self.services@[i as int].name == name,
                None => !self.has_service(name),
            },
    {
        let mut i: usize = 0;
        while i < self.services.len()
            invariant
                i <= self.services@.len(),
                forall|k: int| 0 <= k < i ==> (#[trigger] self.services@[k]).name != name,
            decreases self.services@.len() - i,
        {
            if self.services[i].name == name {
                return Some(i);
            }
            i += 1;
        }
        None
    }

    /// Whether a service with this name is registered.
    pub fn contains(&self, name: ServiceName) -> (r: bool)
        ensures
            r == self.has_service(name),
    {
        self.find_service(name).is_some()
    }

    /// Register a service under its name, replacing any previous service of
    /// the same name.
    fn add_service(&mut self, svc: Service)
        requires
            old(self).wf(),
            svc.wf(),
        ensures
            final(self).wf(),
            final(self).connections == old(self).connections,
            final(self).id_count == old(self).id_count,
            final(self).primary_display == old(self).primary_display,
            final(self).camera_present == old(self).camera_present,
            final(self).has_service(svc.name),
            !old(self).has_service(svc.name) ==> final(self).services@ == old(self).services@.push(svc),
            forall|j: int|
                0 <= j < old(self).services@.len() && (#[trigger] old(self).services@[j]).name
                    == svc.name ==> final(self).services@ == old(self).services@.update(j, svc),
            forall|n: ServiceName|
                n != svc.name ==> #[trigger] final(self).has_service(n) == old(self).has_service(
                    n,
                ),
    {
        let ghost pre = self.services@;
        match self.find_service(svc.name) {
            Some(i) => {
                let ghost name = svc.name;
                self.services.set(i, svc);
                proof {
                    let post = self.services@;
                    assert(post == pre.update(i as int, svc));
                    assert(post[i as int].name == svc.name);
                    assert forall|j: int|
                        0 <= j < pre.len() && (#[trigger] pre[j]).name == name implies post
                        == pre.update(j, svc) by {
                        if j != i {
                            assert(pre[i as int].name == pre[j].name);
                        }
                    }
                    assert forall|n: ServiceName|
                        n != name implies #[trigger] self.has_service(n) == old(self).has_service(n) by {
                        if old(self).has_service(n) {
                            let k = choose|k: int| 0 <= k < pre.len() && pre[k].name == n;
                            assert(post[k].name == n);
                        }
                        if self.has_service(n) {
                            let k = choose|k: int| 0 <= k < post.len() && post[k].name == n;
                            assert(pre[k].name == n);
                        }
                    }
                }
            },
            None => {
                self.services.push(svc);
                proof {
                    let post = self.services@;
                    assert(post.last() == svc);
                    assert(post[post.len() - 1].name == svc.name);
                    assert forall|n: ServiceName|
                        n != svc.name implies #[trigger] self.has_service(n) == old(self).has_service(n) by {
                        if old(self).has_service(n) {
                            let k = choose|k: int| 0 <= k < pre.len() && pre[k].name == n;
                            assert(post[k].name == n);
                        }
                        if self.has_service(n) {
                            let k = choose|k: int| 0 <= k < post.len() && post[k].name == n;
                            assert(k < pre.len());
                            assert(pre[k].name == n);
                        }
                    }
                }
            },
        }
    }

    /// If capability discovery found a primary camera and no camera service
    /// is registered yet for it, register a fresh one. Otherwise nothing
    /// changes.
    pub fn try_add_primary_camera_service(&mut self)
        requires
            old(self).wf(),
        ensures
            final(self).wf(),
            (!old(self).camera_present || old(self).has_service(
                spec_camera_name(PRIMARY_CAMERA_INDEX),
            )) ==> *final(self) == *old(self),
            (old(self).camera_present && !old(self).has_service(
                spec_camera_name(PRIMARY_CAMERA_INDEX),
            )) ==> {
                &&& final(self).services@.len() == old(self).services@.len() + 1
                &&& (forall|j: int|
                    0 <= j < old(self).services@.len() ==> final(self).services@[j] == old(self).services@[j])
                &&& final(self).services@.last().name == spec_camera_name(PRIMARY_CAMERA_INDEX)
                &&& final(self).services@.last().subscribers@.len() == 0
                &&& final(self).services@.last().worker == WorkerStatus::Idle
                &&& final(self).connections == old(self).connections
                &&& final(self).id_count == old(self).id_count
                &&& final(self).primary_display == old(self).primary_display
                &&& final(self).camera_present == old(self).camera_present
            },
            final(self).has_service(spec_camera_name(PRIMARY_CAMERA_INDEX)) == (old(self).camera_present || old(self).has_service(spec_camera_name(PRIMARY_CAMERA_INDEX))),
            forall|n: ServiceName|
                n != spec_camera_name(PRIMARY_CAMERA_INDEX) ==> #[trigger] final(self).has_service(n) == old(self).has_service(n),
    {
        if !self.camera_present {
            return;
        }
        let name = camera_name(PRIMARY_CAMERA_INDEX);
        if !self.contains(name) {
            self.add_service(Service::new(name));
        }
    }

    /// If no monitor service is registered yet for the primary display,
    /// register a fresh one. Otherwise nothing changes.
    pub fn try_add_primay_video_service(&mut self)
        requires
            old(self).wf(),
        ensures
            final(self).wf(),
            old(self).has_service(spec_monitor_name(old(self).primary_display)) ==> *final(self)
                == *old(self),
            !old(self).has_service(spec_monitor_name(old(self).primary_display)) ==> {
                &&& final(self).services@.len() == old(self).services@.len() + 1
                &&& (forall|j: int|
                    0 <= j < old(self).services@.len() ==> final(self).services@[j] == old(self).services@[j])
                &&& final(self).services@.last().name == spec_monitor_name(
                    old(self).primary_display,
                )
                &&& final(self).services@.last().subscribers@.len() == 0
                &&& final(self).services@.last().worker == WorkerStatus::Idle
                &&& final(self).connections == old(self).connections
                &&& final(self).id_count == old(self).id_count
                &&& final(self).primary_display == old(self).primary_display
                &&& final(self).camera_present == old(self).camera_present
            },
            final(self).has_service(spec_monitor_name(old(self).primary_display)),
            forall|n: ServiceName|
                n != spec_monitor_name(old(self).primary_display) ==> #[trigger] final(self).has_service(n) == old(self).has_service(n),
    {
        let name = monitor_name(self.primary_display);
        if !self.contains(name) {
            self.add_service(Service::new(name));
        }
    }

    /// Admit an authenticated connection: subscribe it to every registered
    /// service the default-admission rule allows — each non-video service
    /// not on the connection's denylist, and among the video services only
    /// the primary monitor — then append its record. The identifier must
    /// have come from this registry's allocator and not be registered yet;
    /// a duplicate identifier would be a programming defect, not a
    /// recoverable state.
    pub fn add_connection(&mut self, conn: Connection, noperms: &Vec<ServiceName>)
        requires
            old(self).wf(),
            !old(self).has_connection(conn.id),
            conn.id <= old(self).id_count,
        ensures
            final(self).wf(),
            add_connection_rel(*old(self), *final(self), conn, noperms@),
            final(self).has_connection(conn.id),
    {
        let primary = monitor_name(self.primary_display);
        let mut i: usize = 0;
        while i < self.services.len()
            invariant
                old(self).wf(),
                self.id_count == old(self).id_count,
                self.primary_display == old(self).primary_display,
                self.camera_present == old(self).camera_present,
                self.connections == old(self).connections,
                self.services@.len() == old(self).services@.len(),
                i <= self.services@.len(),
                primary == spec_monitor_name(old(self).primary_display),
                forall|j: int|
                    0 <= j < self.services@.len() ==> (#[trigger] self.services@[j]).wf(),
                forall|j: int|
                    0 <= j < self.services@.len() ==> (#[trigger] self.services@[j]).name == old(
                        self,
                    ).services@[j].name,
                forall|j: int|
                    0 <= j < i ==> svc_admit_rel(
                        #[trigger] old(self).services@[j],
                        self.services@[j],
                        conn.id,
                        default_admissible(
                            old(self).services@[j].name,
                            old(self).primary_display,
                            noperms@,
                        ),
                    ),
                forall|j: int|
                    i <= j < self.services@.len() ==> #[trigger] self.services@[j] == old(
                        self,
                    ).services@[j],
            decreases self.services@.len() - i,
        {
            let ghost prev = self.services@;
            let name = self.services[i].name;
            let admitted = (!name.is_video() || name == primary) && !denylist_contains(
                noperms,
                name,
            );
            if admitted {
                let mut svc = self.services.remove(i);
                svc.on_subscribe(conn.id);
                let ghost touched = svc;
                self.services.insert(i, svc);
                proof {
                    assert(self.services@ =~= prev.update(i as int, touched));
                    assert(svc_subscribe_rel(prev[i as int], touched, conn.id));
                }
            }
            proof {
                assert(self.services@ == prev.update(i as int, self.services@[i as int]));
                assert(admitted == default_admissible(
                    old(self).services@[i as int].name,
                    old(self).primary_display,
                    noperms@,
                ));
                assert(svc_admit_rel(
                    old(self).services@[i as int],
                    self.services@[i as int],
                    conn.id,
                    admitted,
                ));
            }
            i += 1;
        }
        self.connections.push(conn);
        proof {
            let post = self.connections@;
            assert(post.last().id == conn.id);
            assert forall|a: int, b: int| 0 <= a < b < post.len() implies post[a].id != post[b].id
                by {
                if b < post.len() - 1 {
                    assert(old(self).connections@[a].id != old(self).connections@[b].id);
                } else {
                    assert(post[a] == old(self).connections@[a]);
                }
            }
        }
    }

    /// Atomically reshape one connection's video subscriptions among the
    /// services of `source`: the ones whose index is in `displays` are
    /// subscribed when `enlist` is set, and the remaining services of that
    /// same source are unsubscribed when `exclude` is set. Video services
    /// of the other source and non-video services are never touched. With
    /// one flag clear, the corresponding half is left untouched, so a peer
    /// can express "exactly these", "also these" or "not those" in one
    /// request.
    pub fn capture_displays(
        &mut self,
        conn_id: i32,
        source: VideoSource,
        displays: &Vec<usize>,
        enlist: bool,
        exclude: bool,
    )
        requires
            old(self).wf(),
        ensures
            final(self).wf(),
            capture_displays_rel(
                *old(self),
                *final(self),
                conn_id,
                source,
                displays@,
                enlist,
                exclude,
            ),
    {
        let mut i: usize = 0;
        while i < self.services.len()
            invariant
                old(self).wf(),
                self.id_count == old(self).id_count,
                self.primary_display == old(self).primary_display,
                self.camera_present == old(self).camera_present,
                self.connections == old(self).connections,
                self.services@.len() == old(self).services@.len(),
                i <= self.services@.len(),
                forall|j: int|
                    0 <= j < self.services@.len() ==> (#[trigger] self.services@[j]).wf(),
                forall|j: int|
                    0 <= j < self.services@.len() ==> (#[trigger] self.services@[j]).name == old(
                        self,
                    ).services@[j].name,
                forall|j: int|
                    0 <= j < i ==> svc_capture_rel(
                        #[trigger] old(self).services@[j],
                        self.services@[j],
                        conn_id,
                        source,
                        displays@,
                        enlist,
                        exclude,
                    ),
                forall|j: int|
                    i <= j < self.services@.len() ==> #[trigger] self.services@[j] == old(
                        self,
                    ).services@[j],
            decreases self.services@.len() - i,
        {
            let ghost prev = self.services@;
            let name = self.services[i].name;
            let (same_source, listed) = match name {
                ServiceName::Video { source: src, index } => {
                    (src == source, index_list_contains(displays, index))
                },
                _ => (false, false),
            };
            if same_source {
                proof {
                    assert(listed == capture_target(name, source, displays@));
                }
                if listed && enlist {
                    let mut svc = self.services.remove(i);
                    svc.on_subscribe(conn_id);
                    let ghost touched = svc;
                    self.services.insert(i, svc);
                    proof {
                        assert(self.services@ =~= prev.update(i as int, touched));
                        assert(svc_subscribe_rel(prev[i as int], touched, conn_id));
                    }
                } else if !listed && exclude {
                    let mut svc = self.services.remove(i);
                    svc.on_unsubscribe(conn_id);
                    let ghost touched = svc;
                    self.services.insert(i, svc);
                    proof {
                        assert(self.services@ =~= prev.update(i as int, touched));
                        assert(svc_unsubscribe_rel(prev[i as int], touched, conn_id));
                    }
                }
            }
            proof {
                assert(self.services@ == prev.update(i as int, self.services@[i as int]));
                assert(svc_capture_rel(
                    old(self).services@[i as int],
                    self.services@[i as int],
                    conn_id,
                    source,
                    displays@,
                    enlist,
                    exclude,
                ));
            }
            i += 1;
        }
    }

    /// How many video services — monitors or cameras — the connection is
    /// currently subscribed to. Platform policy uses this to trade
    /// resolution against the number of simultaneously active feeds.
    pub fn get_subbed_displays_count(&self, conn_id: i32) -> (r: usize)
        ensures
            r == video_subscribed_count(self.services@, conn_id),
    {
        let mut count: usize = 0;
        let mut i: usize = 0;
        while i < self.services.len()
            invariant
                i <= self.services@.len(),
                count <= i,
                count == video_subscribed_count(self.services@.take(i as int), conn_id),
            decreases self.services@.len() - i,
        {
            let svc = &self.services[i];
            let subbed = svc.name.is_video() && svc.is_subed(conn_id);
            proof {
                let taken = self.services@.take(i + 1);
                assert(taken.drop_last() =~= self.services@.take(i as int));
                assert(taken.last() == self.services@[i as int]);
            }
            if subbed {
                count += 1;
            }
            i += 1;
        }
        proof {
            assert(self.services@.take(self.services@.len() as int) =~= self.services@);
        }
        count
    }

    /// Whether high-resolution capture should stay enabled: platform
    /// policy allows it only while fewer than two video services are
    /// healthy, since two simultaneous high-resolution feeds are too
    /// expensive.
    pub fn enable_high_res_capture(&self) -> (r: bool)
        ensures
            r == (video_ok_count(self.services@) < 2),
    {
        let mut count: usize = 0;
        let mut i: usize = 0;
        while i < self.services.len()
            invariant
                i <= self.services@.len(),
                count <= i,
                count == video_ok_count(self.services@.take(i as int)),
            decreases self.services@.len() - i,
        {
            let svc = &self.services[i];
            let healthy = svc.name.is_video() && svc.ok;
            proof {
                let taken = self.services@.take(i + 1);
                assert(taken.drop_last() =~= self.services@.take(i as int));
                assert(taken.last() == self.services@[i as int]);
            }
            if healthy {
                count += 1;
            }
            i += 1;
        }
        proof {
            assert(self.services@.take(self.services@.len() as int) =~= self.services@);
        }
        count < 2
    }

    /// Record a best-effort runtime option on video services: on the one
    /// service for `display` when given, or on every video service when
    /// not. Non-video services are never touched; unknown displays are
    /// silently ignored.
    pub fn set_video_service_opt(
        &mut self,
        display: Option<(VideoSource, usize)>,
        opt: &str,
        value: &str,
    )
        requires
            old(self).wf(),
        ensures
            final(self).wf(),
            set_video_opt_rel(*old(self), *final(self), display, opt@, value@),
    {
        let mut i: usize = 0;
        while i < self.services.len()
            invariant
                old(self).wf(),
                self.id_count == old(self).id_count,
                self.primary_display == old(self).primary_display,
                self.camera_present == old(self).camera_present,
                self.connections == old(self).connections,
                self.services@.len() == old(self).services@.len(),
                i <= self.services@.len(),
                forall|j: int|
                    0 <= j < self.services@.len() ==> (#[trigger] self.services@[j]).wf(),
                forall|j: int|
                    0 <= j < self.services@.len() ==> (#[trigger] self.services@[j]).name == old(
                        self,
                    ).services@[j].name,
                forall|j: int|
                    0 <= j < i ==> svc_opt_rel(
                        #[trigger] old(self).services@[j],
                        self.services@[j],
                        display,
                        opt@,
                        value@,
                    ),
                forall|j: int|
                    i <= j < self.services@.len() ==> #[trigger] self.services@[j] == old(
                        self,
                    ).services@[j],
            decreases self.services@.len() - i,
        {
            let ghost prev = self.services@;
            let name = self.services[i].name;
            let selected = match display {
                Some((src, idx)) => {
                    name == (ServiceName::Video { source: src, index: idx })
                },
                None => true,
            };
            if selected && name.is_video() {
                let mut svc = self.services.remove(i);
                svc.set_option(opt.to_owned(), value.to_owned());
                let ghost touched = svc;
                self.services.insert(i, svc);
                proof {
                    assert(self.services@ =~= prev.update(i as int, touched));
                    assert(touched.options_view() =~= prev[i as int].options_view().push(
                        (opt@, value@),
                    ));
                }
            }
            proof {
                assert(self.services@ == prev.update(i as int, self.services@[i as int]));
                assert(svc_opt_rel(
                    old(self).services@[i as int],
                    self.services@[i as int],
                    display,
                    opt@,
                    value@,
                ));
            }
            i += 1;
        }
    }

    /// Admit a connection through the camera path: if capability discovery
    /// found a primary camera and its service is registered, subscribe the
    /// connection to that service alone, then append the record. Camera
    /// admission is driven by capability discovery, not by the general
    /// default-admission rule, so no other service is touched.
    pub fn add_camera_connection(&mut self, conn: Connection)
        requires
            old(self).wf(),
            !old(self).has_connection(conn.id),
            conn.id <= old(self).id_count,
        ensures
            final(self).wf(),
            add_camera_connection_rel(*old(self), *final(self), conn),
            final(self).has_connection(conn.id),
    {
        let ghost pre_services = self.services@;
        if self.camera_present {
            match self.find_service(camera_name(PRIMARY_CAMERA_INDEX)) {
                Some(i) => {
                    let mut svc = self.services.remove(i);
                    svc.on_subscribe(conn.id);
                    let ghost touched = svc;
                    self.services.insert(i, svc);
                    proof {
                        assert(self.services@ =~= pre_services.update(i as int, touched));
                        assert(svc_subscribe_rel(pre_services[i as int], touched, conn.id));
                        assert forall|j: int|
                            0 <= j < pre_services.len() implies svc_admit_rel(
                            pre_services[j],
                            self.services@[j],
                            conn.id,
                            old(self).camera_present && pre_services[j].name == spec_camera_name(
                                PRIMARY_CAMERA_INDEX,
                            ),
                        ) by {
                            if j != i && pre_services[j].name == spec_camera_name(
                                PRIMARY_CAMERA_INDEX,
                            ) {
                                assert(pre_services[i as int].name == pre_services[j].name);
                            }
                        }
                    }
                },
                None => {},
            }
        }
        self.connections.push(conn);
        proof {
            let post = self.connections@;
            assert(post.last().id == conn.id);
            assert forall|a: int, b: int| 0 <= a < b < post.len() implies post[a].id != post[b].id
                by {
                if b < post.len() - 1 {
                    assert(old(self).connections@[a].id != old(self).connections@[b].id);
                } else {
                    assert(post[a] == old(self).connections@[a]);
                }
            }
        }
    }

    /// Remove a connection: unsubscribe it from every registered service
    /// and drop its record. Unknown identifiers are silently ignored.
    pub fn remove_connection(&mut self, conn_id: i32)
        requires
            old(self).wf(),
        ensures
            final(self).wf(),
            remove_connection_rel(*old(self), *final(self), conn_id),
    {
        let mut i: usize = 0;
        while i < self.services.len()
            invariant
                old(self).wf(),
                self.id_count == old(self).id_count,
                self.primary_display == old(self).primary_display,
                self.camera_present == old(self).camera_present,
                self.connections == old(self).connections,
                self.services@.len() == old(self).services@.len(),
                i <= self.services@.len(),
                forall|j: int|
                    0 <= j < self.services@.len() ==> (#[trigger] self.services@[j]).wf(),
                forall|j: int|
                    0 <= j < self.services@.len() ==> (#[trigger] self.services@[j]).name == old(
                        self,
                    ).services@[j].name,
                forall|j: int|
                    0 <= j < i ==> svc_unsubscribe_rel(
                        #[trigger] old(self).services@[j],
                        self.services@[j],
                        conn_id,
                    ),
                forall|j: int|
                    i <= j < self.services@.len() ==> #[trigger] self.services@[j] == old(
                        self,
                    ).services@[j],
            decreases self.services@.len() - i,
        {
            let ghost prev = self.services@;
            let mut svc = self.services.remove(i);
            svc.on_unsubscribe(conn_id);
            let ghost touched = svc;
            self.services.insert(i, svc);
            proof {
                assert(self.services@ =~= prev.update(i as int, touched));
                assert(svc_unsubscribe_rel(prev[i as int], touched, conn_id));
            }
            i += 1;
        }
        let ghost pre_conns = self.connections@;
        let mut k: usize = 0;
        while k < self.connections.len()
            invariant
                old(self).wf(),
                self.id_count == old(self).id_count,
                self.primary_display == old(self).primary_display,
                self.camera_present == old(self).camera_present,
                self.services@.len() == old(self).services@.len(),
                forall|j: int|
                    0 <= j < self.services@.len() ==> (#[trigger] self.services@[j]).wf(),
                forall|j: int|
                    0 <= j < self.services@.len() ==> (#[trigger] self.services@[j]).name == old(
                        self,
                    ).services@[j].name,
                forall|j: int|
                    0 <= j < self.services@.len() ==> svc_unsubscribe_rel(
                        #[trigger] old(self).services@[j],
                        self.services@[j],
                        conn_id,
                    ),
                self.connections == old(self).connections,
                pre_conns == old(self).connections@,
                k <= pre_conns.len(),
                forall|m: int| 0 <= m < k ==> (#[trigger] pre_conns[m]).id != conn_id,
            decreases pre_conns.len() - k,
        {
            if self.connections[k].id == conn_id {
                let ghost doomed = self.connections@[k as int];
                self.connections.remove(k);
                proof {
                    pre_conns.remove_ensures(k as int);
                    let post = self.connections@;
                    assert forall|m: int| 0 <= m < post.len() implies pre_conns.contains(
                        #[trigger] post[m],
                    ) by {
                        if m < k {
                            assert(post[m] == pre_conns[m]);
                        } else {
                            assert(post[m] == pre_conns[m + 1]);
                        }
                    }
                    assert forall|c: i32| c != conn_id implies #[trigger] self.has_connection(c)
                        == old(self).has_connection(c) by {
                        if old(self).has_connection(c) {
                            let m = choose|m: int|
                                0 <= m < pre_conns.len() && pre_conns[m].id == c;
                            if m < k {
                                assert(post[m].id == c);
                            } else {
                                assert(pre_conns[k as int].id == conn_id);
                                assert(post[m - 1].id == c);
                            }
                        }
                        if self.has_connection(c) {
                            let m = choose|m: int| 0 <= m < post.len() && post[m].id == c;
                            if m < k {
                                assert(pre_conns[m].id == c);
                            } else {
                                assert(pre_conns[m + 1].id == c);
                            }
                        }
                    }
                    assert(!self.has_connection(conn_id)) by {
                        if self.has_connection(conn_id) {
                            let m = choose|m: int|
                                0 <= m < post.len() && post[m].id == conn_id;
                            if m < k {
                                assert(pre_conns[m].id == conn_id);
                                assert(pre_conns[k as int].id == conn_id);
                            } else {
                                assert(pre_conns[m + 1].id == conn_id);
                                assert(pre_conns[k as int].id == conn_id);
                            }
                        }
                    }
                    assert forall|m: int|
                        0 <= m < pre_conns.len() && (#[trigger] pre_conns[m]).id != conn_id
                        implies post.contains(pre_conns[m]) by {
                        if m < k {
                            assert(post[m] == pre_conns[m]);
                        } else {
                            assert(m != k);
                            assert(post[m - 1] == pre_conns[m]);
                        }
                    }
                    assert forall|a: int, b: int|
                        0 <= a < b < post.len() implies post[a].id != post[b].id by {
                        let a1: int = if a < k { a } else { a + 1 };
                        let b1: int = if b < k { b } else { b + 1 };
                        assert(post[a] == pre_conns[a1]);
                        assert(post[b] == pre_conns[b1]);
                    }
                    assert(old(self).has_connection(conn_id)) by {
                        assert(pre_conns[k as int].id == conn_id);
                    }
                    assert forall|m: int| 0 <= m < post.len() implies (#[trigger] post[m]).id
                        <= self.id_count by {
                        if m < k {
                            assert(post[m] == pre_conns[m]);
                        } else {
                            assert(post[m] == pre_conns[m + 1]);
                        }
                    }
                    assert forall|a: int, b: int|
                        0 <= a < b < self.services@.len() implies (
                        #[trigger] self.services@[a]).name != (
                        #[trigger] self.services@[b]).name by {
                        assert(old(self).services@[a].name != old(self).services@[b].name);
                    }
                }
                return;
            }
            k += 1;
        }
        proof {
            assert(!old(self).has_connection(conn_id));
            assert(!self.has_connection(conn_id));
            assert forall|m: int|
                0 <= m < self.connections@.len() implies old(self).connections@.contains(
                #[trigger] self.connections@[m],
            ) by {
                assert(old(self).connections@[m] == self.connections@[m]);
            }
            assert forall|m: int|
                0 <= m < old(self).connections@.len() && (#[trigger] old(
                    self,
                ).connections@[m]).id != conn_id implies self.connections@.contains(
                old(self).connections@[m],
            ) by {
                assert(self.connections@[m] == old(self).connections@[m]);
            }
            assert forall|a: int, b: int|
                0 <= a < b < self.services@.len() implies (#[trigger] self.services@[a]).name != (
            #[trigger] self.services@[b]).name by {
                assert(old(self).services@[a].name != old(self).services@[b].name);
            }
        }
    }

    /// Send a stop-service control message to every registered connection
    /// without removing any of them: the host-initiated full shutdown
    /// signal, distinct from per-connection teardown.
    pub fn close_connections(&mut self)
        requires
            old(self).wf(),
        ensures
            final(self).wf(),
            final(self).services == old(self).services,
            final(self).id_count == old(self).id_count,
            final(self).primary_display == old(self).primary_display,
            final(self).camera_present == old(self).camera_present,
            final(self).connections@.len() == old(self).connections@.len(),
            forall|k: int|
                0 <= k < old(self).connections@.len() ==> conn_send_rel(
                    #[trigger] old(self).connections@[k],
                    final(self).connections@[k],
                    OutboundMessage::StopService,
                ),
    {
        let mut k: usize = 0;
        while k < self.connections.len()
            invariant
                old(self).wf(),
                self.services == old(self).services,
                self.id_count == old(self).id_count,
                self.primary_display == old(self).primary_display,
                self.camera_present == old(self).camera_present,
                self.connections@.len() == old(self).connections@.len(),
                k <= self.connections@.len(),
                forall|m: int|
                    0 <= m < self.connections@.len() ==> (#[trigger] self.connections@[m]).id
                        == old(self).connections@[m].id,
                forall|m: int|
                    0 <= m < k ==> conn_send_rel(
                        #[trigger] old(self).connections@[m],
                        self.connections@[m],
                        OutboundMessage::StopService,
                    ),
                forall|m: int|
                    k <= m < self.connections@.len() ==> #[trigger] self.connections@[m] == old(
                        self,
                    ).connections@[m],
            decreases self.connections@.len() - k,
        {
            let ghost prev = self.connections@;
            let mut conn = self.connections.remove(k);
            conn.send(OutboundMessage::StopService);
            let ghost touched = conn;
            self.connections.insert(k, conn);
            proof {
                assert(self.connections@ =~= prev.update(k as int, touched));
                assert(conn_send_rel(prev[k as int], touched, OutboundMessage::StopService));
            }
            k += 1;
        }
    }

    /// Deliver one message from the service named `name` to every
    /// connection currently subscribed to it, by appending to each
    /// subscriber's outbound queue. Queues grow in generation order, so a
    /// single service's messages reach a single subscriber in the order
    /// the service produced them; amortizing the serialization across
    /// subscribers is the transport's business. A missing service, like a
    /// service without subscribers, sends nothing.
    pub fn send_from_service(&mut self, name: ServiceName, msg: OutboundMessage)
        requires
            old(self).wf(),
        ensures
            final(self).wf(),
            final(self).services == old(self).services,
            final(self).id_count == old(self).id_count,
            final(self).primary_display == old(self).primary_display,
            final(self).camera_present == old(self).camera_present,
            final(self).connections@.len() == old(self).connections@.len(),
            forall|k: int|
                0 <= k < old(self).connections@.len() ==> (if old(self).subscribed(
                    name,
                    (#[trigger] old(self).connections@[k]).id,
                ) {
                    conn_send_rel(old(self).connections@[k], final(self).connections@[k], msg)
                } else {
                    final(self).connections@[k] == old(self).connections@[k]
                }),
    {
        let found = self.find_service(name);
        let Some(i) = found else {
            proof {
                assert forall|k: int|
                    0 <= k < self.connections@.len() implies !self.subscribed(
                    name,
                    (#[trigger] self.connections@[k]).id,
                ) by {}
                ;
            }
            return;
        };
        let mut k: usize = 0;
        while k < self.connections.len()
            invariant
                old(self).wf(),
                self.services == old(self).services,
                self.id_count == old(self).id_count,
                self.primary_display == old(self).primary_display,
                self.camera_present == old(self).camera_present,
                self.connections@.len() == old(self).connections@.len(),
                k <= self.connections@.len(),
                i < self.services@.len(),
                self.services@[i as int].name == name,
                forall|m: int|
                    0 <= m < self.connections@.len() ==> (#[trigger] self.connections@[m]).id
                        == old(self).connections@[m].id,
                forall|m: int|
                    0 <= m < k ==> (if old(self).subscribed(
                        name,
                        (#[trigger] old(self).connections@[m]).id,
                    ) {
                        conn_send_rel(old(self).connections@[m], self.connections@[m], msg)
                    } else {
                        self.connections@[m] == old(self).connections@[m]
                    }),
                forall|m: int|
                    k <= m < self.connections@.len() ==> #[trigger] self.connections@[m] == old(
                        self,
                    ).connections@[m],
            decreases self.connections@.len() - k,
        {
            let ghost prev = self.connections@;
            let conn_id = self.connections[k].id;
            let subbed = self.services[i].is_subed(conn_id);
            proof {
                assert(subbed == old(self).subscribed(name, conn_id)) by {
                    if old(self).subscribed(name, conn_id) {
                        let j = choose|j: int|
                            0 <= j < old(self).services@.len() && (#[trigger] old(
                                self,
                            ).services@[j]).name == name && old(self).services@[j].is_subscribed(
                                conn_id,
                            );
                        if j != i {
                            assert(old(self).services@[i as int].name == old(
                                self,
                            ).services@[j].name);
                        }
                    }
                }
            }
            if subbed {
                let mut conn = self.connections.remove(k);
                conn.send(msg);
                let ghost touched = conn;
                self.connections.insert(k, conn);
                proof {
                    assert(self.connections@ =~= prev.update(k as int, touched));
                    assert(conn_send_rel(prev[k as int], touched, msg));
                }
            }
            k += 1;
        }
    }

    /// Tear the registry down: drop every connection record, then ask every
    /// service worker to stop and join it. When this returns, no service
    /// worker is still running and the connection table is empty. Calling
    /// it again changes nothing further, so teardown is idempotent.
    pub fn shutdown(&mut self)
        requires
            old(self).wf(),
        ensures
            final(self).wf(),
            shutdown_rel(*old(self), *final(self)),
    {
        self.connections.clear();
        let mut i: usize = 0;
        while i < self.services.len()
            invariant
                old(self).wf(),
                self.id_count == old(self).id_count,
                self.primary_display == old(self).primary_display,
                self.camera_present == old(self).camera_present,
                self.connections@.len() == 0,
                self.services@.len() == old(self).services@.len(),
                i <= self.services@.len(),
                forall|j: int|
                    0 <= j < i ==> #[trigger] self.services@[j] == (Service {
                        ok: false,
                        worker: WorkerStatus::Joined,
                        ..old(self).services@[j]
                    }),
                forall|j: int|
                    i <= j < self.services@.len() ==> #[trigger] self.services@[j] == old(
                        self,
                    ).services@[j],
            decreases self.services@.len() - i,
        {
            let ghost prev = self.services@;
            let mut svc = self.services.remove(i);
            svc.request_stop();
            svc.join();
            let ghost touched = svc;
            self.services.insert(i, svc);
            proof {
                assert(self.services@ =~= prev.update(i as int, touched));
            }
            i += 1;
        }
        proof {
            assert forall|j: int|
                0 <= j < self.services@.len() implies (#[trigger] self.services@[j]).wf() by {
                assert(old(self).services@[j].wf());
                assert(self.services@[j].subscribers == old(self).services@[j].subscribers);
            }
        }
    }

    /// Toggle one connection's subscription to the service named `name`.
    /// No service of that name: silently ignored. Subscription already in
    /// the desired state: a silent no-op, with no duplicate notification.
    /// Otherwise the service gains or loses the subscriber, waking an idle
    /// worker on the first subscriber and parking it on the last.
    pub fn subscribe(&mut self, name: ServiceName, conn_id: i32, sub: bool)
        requires
            old(self).wf(),
        ensures
            final(self).wf(),
            set_subscription_rel(*old(self), *final(self), name, conn_id, sub),
    {
        match self.find_service(name) {
            None => {
                proof {
                    assert(set_subscription_rel(*old(self), *self, name, conn_id, sub));
                }
            },
            Some(i) => {
                if self.services[i].is_subed(conn_id) == sub {
                    proof {
                        assert(old(self).services@[i as int].is_subscribed(conn_id) == sub);
                        assert(set_subscription_rel(*old(self), *self, name, conn_id, sub));
                    }
                    return;
                }
                let ghost pre = self.services@;
                let svc = &mut self.services[i];
                if sub {
                    svc.on_subscribe(conn_id);
                } else {
                    svc.on_unsubscribe(conn_id);
                }
                proof {
                    let post = self.services@;
                    assert(post == pre.update(i as int, post[i as int]));
                    assert forall|j: int|
                        0 <= j < pre.len() && (#[trigger] pre[j]).name == name implies
                        svc_set_sub_rel(pre[j], post[j], conn_id, sub) by {
                        if j != i {
                            assert(pre[i as int].name == pre[j].name);
                        }
                    }
                    assert forall|j: int|
                        0 <= j < pre.len() && (#[trigger] pre[j]).name != name implies post[j]
                        == pre[j] by {}
                    assert(!(pre[i as int].is_subscribed(conn_id) == sub));
                    assert forall|j: int|
                        0 <= j < pre.len() && (#[trigger] pre[j]).name == name && pre[
                            j
                        ].is_subscribed(conn_id) == sub implies false by {
                        assert(j == i);
                    }
                }
            },
        }
    }
}

/// Whether `deny` holds `n`.
fn denylist_contains(deny: &Vec<ServiceName>, n: ServiceName) -> (r: bool)
    ensures
        r == deny@.contains(n),
{
    let mut i: usize = 0;
    while i < deny.len()
        invariant
            i <= deny@.len(),
            forall|k: int| 0 <= k < i ==> deny@[k] != n,
        decreases deny@.len() - i,
    {
        if deny[i] == n {
            return true;
        }
        i += 1;
    }
    false
}

/// The default-admission rule: a freshly admitted connection is subscribed
/// to a service exactly when the service is not a video feed of anything
/// but the primary display, and its name is not on the connection's
/// denylist. Secondary monitors and cameras must be requested explicitly
/// after admission.
pub open spec fn default_admissible(
    n: ServiceName,
    primary_display: usize,
    deny: Seq<ServiceName>,
) -> bool {
    (!n.spec_is_video() || n == spec_monitor_name(primary_display)) && !deny.contains(n)
}

/// How one service changes when a connection is admitted: if the admission
/// rule applies it gains the subscriber as `on_subscribe` says, otherwise
/// it is untouched.
pub open spec fn svc_admit_rel(s: Service, t: Service, id: i32, admitted: bool) -> bool {
    if admitted {
        svc_subscribe_rel(s, t, id)
    } else {
        t == s
    }
}

/// What `Service::on_subscribe` does: a repeated subscription changes
/// nothing; otherwise the subscriber list grows by exactly `id`, and the
/// first subscriber wakes an idle worker.
pub open spec fn svc_subscribe_rel(s: Service, t: Service, id: i32) -> bool {
    if s.is_subscribed(id) {
        t == s
    } else {
        &&& t.name == s.name
        &&& t.ok == s.ok
        &&& t.options == s.options
        &&& t.subscribers@ == s.subscribers@.push(id)
        &&& t.is_subscribed(id)
        &&& (forall|c: i32| c != id ==> t.is_subscribed(c) == s.is_subscribed(c))
        &&& t.worker == (if s.subscribers@.len() == 0 {
            WorkerStatus::Running
        } else {
            s.worker
        })
    }
}

/// What admitting `conn` with denylist `deny` does to the registry: every
/// registered service gains the subscriber exactly when the
/// default-admission rule allows it, and the connection record is appended.
/// Counters and capability configuration are untouched.
pub open spec fn add_connection_rel(
    pre: Server,
    post: Server,
    conn: Connection,
    deny: Seq<ServiceName>,
) -> bool {
    &&& post.id_count == pre.id_count
    &&& post.primary_display == pre.primary_display
    &&& post.camera_present == pre.camera_present
    &&& post.connections@ == pre.connections@.push(conn)
    &&& post.services@.len() == pre.services@.len()
    &&& (forall|j: int|
        0 <= j < pre.services@.len() ==> svc_admit_rel(
            #[trigger] pre.services@[j],
            post.services@[j],
            conn.id,
            default_admissible(pre.services@[j].name, pre.primary_display, deny),
        ))
}

/// Whether `list` holds `idx`.
fn index_list_contains(list: &Vec<usize>, idx: usize) -> (r: bool)
    ensures
        r == list@.contains(idx),
{
    let mut i: usize = 0;
    while i < list.len()
        invariant
            i <= list@.len(),
            forall|k: int| 0 <= k < i ==> list@[k] != idx,
        decreases list@.len() - i,
    {
        if list[i] == idx {
            return true;
        }
        i += 1;
    }
    false
}

/// Whether a `capture_displays` request for `source` and `displays` names
/// the service `n`: it must be a video service of that source whose index
/// is in the list.
pub open spec fn capture_target(n: ServiceName, source: VideoSource, displays: Seq<usize>) -> bool {
    &&& n matches ServiceName::Video { source: src, index }
    &&& src == source
    &&& displays.contains(index)
}

/// Whether the service named `n` is a video service of the requested
/// source. Only such services take part in a `capture_displays` request;
/// video services of the other source, like non-video services, are
/// never touched by it.
pub open spec fn source_matches(n: ServiceName, source: VideoSource) -> bool {
    &&& n matches ServiceName::Video { source: src, .. }
    &&& src == source
}

/// How one service changes under a `capture_displays` request: among the
/// video services of the requested source, a listed one gains the
/// subscriber when `enlist` is set and an unlisted one loses it when
/// `exclude` is set; every other service — the other video source and the
/// non-video services among them — is untouched.
pub open spec fn svc_capture_rel(
    s: Service,
    t: Service,
    id: i32,
    source: VideoSource,
    displays: Seq<usize>,
    enlist: bool,
    exclude: bool,
) -> bool {
    if source_matches(s.name, source) {
        if capture_target(s.name, source, displays) {
            if enlist {
                svc_subscribe_rel(s, t, id)
            } else {
                t == s
            }
        } else {
            if exclude {
                svc_unsubscribe_rel(s, t, id)
            } else {
                t == s
            }
        }
    } else {
        t == s
    }
}

/// What a `capture_displays` request does to the whole registry: every
/// service changes as [`svc_capture_rel`] says; connections, counters and
/// capability configuration are untouched.
pub open spec fn capture_displays_rel(
    pre: Server,
    post: Server,
    id: i32,
    source: VideoSource,
    displays: Seq<usize>,
    enlist: bool,
    exclude: bool,
) -> bool {
    &&& post.id_count == pre.id_count
    &&& post.primary_display == pre.primary_display
    &&& post.camera_present == pre.camera_present
    &&& post.connections == pre.connections
    &&& post.services@.len() == pre.services@.len()
    &&& (forall|j: int|
        0 <= j < pre.services@.len() ==> svc_capture_rel(
            #[trigger] pre.services@[j],
            post.services@[j],
            id,
            source,
            displays,
            enlist,
            exclude,
        ))
}

/// How many video services the connection `id` is subscribed to in `s`.
pub open spec fn video_subscribed_count(s: Seq<Service>, id: i32) -> nat
    decreases s.len(),
{
    if s.len() == 0 {
        0
    } else {
        video_subscribed_count(s.drop_last(), id) + (
        if s.last().name.spec_is_video() && s.last().is_subscribed(id) {
            1nat
        } else {
            0nat
        })
    }
}

/// How many video services in `s` still have their keep-running flag set.
pub open spec fn video_ok_count(s: Seq<Service>) -> nat
    decreases s.len(),
{
    if s.len() == 0 {
        0
    } else {
        video_ok_count(s.drop_last()) + (
        if s.last().name.spec_is_video() && s.last().ok {
            1nat
        } else {
            0nat
        })
    }
}

/// Whether a `set_video_service_opt` request for `display` selects the
/// service named `n`: the one matching video service when a display is
/// given, every video service when not.
pub open spec fn video_opt_selected(n: ServiceName, display: Option<(VideoSource, usize)>) -> bool {
    &&& n.spec_is_video()
    &&& (display matches Some((src, idx)) ==> n == (ServiceName::Video {
        source: src,
        index: idx,
    }))
}

/// How one service changes under `set_video_service_opt`: a selected video
/// service records the option, any other service is untouched.
pub open spec fn svc_opt_rel(
    s: Service,
    t: Service,
    display: Option<(VideoSource, usize)>,
    key: Seq<char>,
    value: Seq<char>,
) -> bool {
    if video_opt_selected(s.name, display) {
        &&& t.name == s.name
        &&& t.ok == s.ok
        &&& t.worker == s.worker
        &&& t.subscribers == s.subscribers
        &&& t.options_view() == s.options_view().push((key, value))
    } else {
        t == s
    }
}

/// What `set_video_service_opt` does to the whole registry: each service
/// changes as [`svc_opt_rel`] says; everything else is untouched.
pub open spec fn set_video_opt_rel(
    pre: Server,
    post: Server,
    display: Option<(VideoSource, usize)>,
    key: Seq<char>,
    value: Seq<char>,
) -> bool {
    &&& post.id_count == pre.id_count
    &&& post.primary_display == pre.primary_display
    &&& post.camera_present == pre.camera_present
    &&& post.connections == pre.connections
    &&& post.services@.len() == pre.services@.len()
    &&& (forall|j: int|
        0 <= j < pre.services@.len() ==> svc_opt_rel(
            #[trigger] pre.services@[j],
            post.services@[j],
            display,
            key,
            value,
        ))
}

/// What admitting `conn` through the camera path does to the registry: the
/// primary camera service (if the camera exists and the service is
/// registered) gains the subscriber, nothing else is touched, and the
/// connection record is appended.
pub open spec fn add_camera_connection_rel(pre: Server, post: Server, conn: Connection) -> bool {
    &&& post.id_count == pre.id_count
    &&& post.primary_display == pre.primary_display
    &&& post.camera_present == pre.camera_present
    &&& post.connections@ == pre.connections@.push(conn)
    &&& post.services@.len() == pre.services@.len()
    &&& (forall|j: int|
        0 <= j < pre.services@.len() ==> svc_admit_rel(
            #[trigger] pre.services@[j],
            post.services@[j],
            conn.id,
            pre.camera_present && pre.services@[j].name == spec_camera_name(PRIMARY_CAMERA_INDEX),
        ))
}

/// What `Service::on_unsubscribe` does: removing an absent subscriber
/// changes nothing; otherwise exactly `id` leaves the subscriber set, and
/// the last subscriber's departure parks the worker.
pub open spec fn svc_unsubscribe_rel(s: Service, t: Service, id: i32) -> bool {
    if !s.is_subscribed(id) {
        t == s
    } else {
        &&& t.name == s.name
        &&& t.ok == s.ok
        &&& t.options == s.options
        &&& !t.is_subscribed(id)
        &&& (forall|c: i32| c != id ==> t.is_subscribed(c) == s.is_subscribed(c))
        &&& t.subscribers@.len() == s.subscribers@.len() - 1
        &&& t.worker == (if s.subscribers@.len() == 1 {
            WorkerStatus::Idle
        } else {
            s.worker
        })
    }
}

/// What deregistering the connection `id` does: every service loses the
/// subscriber as `on_unsubscribe` says, the one record with that
/// identifier (if any) disappears, and every other record survives
/// untouched.
pub open spec fn remove_connection_rel(pre: Server, post: Server, id: i32) -> bool {
    &&& post.id_count == pre.id_count
    &&& post.primary_display == pre.primary_display
    &&& post.camera_present == pre.camera_present
    &&& post.services@.len() == pre.services@.len()
    &&& (forall|j: int|
        0 <= j < pre.services@.len() ==> svc_unsubscribe_rel(
            #[trigger] pre.services@[j],
            post.services@[j],
            id,
        ))
    &&& !post.has_connection(id)
    &&& (forall|c: i32| c != id ==> #[trigger] post.has_connection(c) == pre.has_connection(c))
    &&& post.connections@.len() == pre.connections@.len() - (if pre.has_connection(id) {
        1int
    } else {
        0int
    })
    &&& (!pre.has_connection(id) ==> post.connections == pre.connections)
    &&& (forall|m: int|
        0 <= m < post.connections@.len() ==> pre.connections@.contains(
            #[trigger] post.connections@[m],
        ))
    &&& (forall|m: int|
        0 <= m < pre.connections@.len() && (#[trigger] pre.connections@[m]).id != id
            ==> post.connections@.contains(pre.connections@[m]))
}

/// What tearing the registry down does: the connection table is emptied,
/// and every service keeps its name, subscribers and options but has its
/// keep-running flag cleared and its worker joined. Teardown completeness:
/// when `shutdown` returns, no service worker is still running.
pub open spec fn shutdown_rel(pre: Server, post: Server) -> bool {
    &&& post.connections@.len() == 0
    &&& post.id_count == pre.id_count
    &&& post.primary_display == pre.primary_display
    &&& post.camera_present == pre.camera_present
    &&& post.services@.len() == pre.services@.len()
    &&& (forall|j: int|
        0 <= j < pre.services@.len() ==> post.services@[j] == (Service {
            ok: false,
            worker: WorkerStatus::Joined,
            ..#[trigger] pre.services@[j]
        }))
}

/// Teardown is idempotent: tearing down an already torn-down registry
/// changes nothing further.
pub proof fn lemma_shutdown_idempotent(s0: Server, s1: Server, s2: Server)
    requires
        shutdown_rel(s0, s1),
        shutdown_rel(s1, s2),
    ensures
        s2.services@ == s1.services@,
        s2.connections@ =~= s1.connections@,
        s2.id_count == s1.id_count,
{
    assert forall|j: int| 0 <= j < s1.services@.len() implies s2.services@[j] == s1.services@[j]
        by {
        assert(s1.services@[j] == (Service {
            ok: false,
            worker: WorkerStatus::Joined,
            ..s0.services@[j]
        }));
        assert(s2.services@[j] == (Service {
            ok: false,
            worker: WorkerStatus::Joined,
            ..s1.services@[j]
        }));
    }
    assert(s2.services@ =~= s1.services@);
}

/// What `Connection::send` does to one record: a closed connection ignores
/// the message, any other gets it appended to its outbound queue.
pub open spec fn conn_send_rel(c: Connection, d: Connection, msg: OutboundMessage) -> bool {
    &&& d.id == c.id
    &&& d.state == c.state
    &&& (c.state == ConnState::Closed ==> d == c)
    &&& (c.state != ConnState::Closed ==> d.outbound@ == c.outbound@.push(msg))
}

/// How one service changes when `set_subscription` touches it: a request
/// matching the current state leaves it untouched; otherwise the subscriber
/// set gains or loses exactly `id`, with the worker waking on the first
/// subscriber and parking on the last. Name, options and keep-running flag
/// never change.
pub open spec fn svc_set_sub_rel(s: Service, t: Service, id: i32, sub: bool) -> bool {
    if s.is_subscribed(id) == sub {
        t == s
    } else {
        &&& t.name == s.name
        &&& t.ok == s.ok
        &&& t.options == s.options
        &&& t.is_subscribed(id) == sub
        &&& (forall|c: i32| c != id ==> t.is_subscribed(c) == s.is_subscribed(c))
        &&& (sub ==> t.subscribers@ == s.subscribers@.push(id) && t.worker == (
        if s.subscribers@.len() == 0 {
            WorkerStatus::Running
        } else {
            s.worker
        }))
        &&& (!sub ==> t.subscribers@.len() == s.subscribers@.len() - 1 && t.worker == (
        if s.subscribers@.len() == 1 {
            WorkerStatus::Idle
        } else {
            s.worker
        }))
    }
}

/// What `set_subscription` does to the whole registry: nothing at all when
/// the named service is missing or already in the requested state, and
/// exactly one service changed as [`svc_set_sub_rel`] says otherwise.
/// Connections, the identifier counter and the capability configuration are
/// never touched.
pub open spec fn set_subscription_rel(
    pre: Server,
    post: Server,
    name: ServiceName,
    id: i32,
    sub: bool,
) -> bool {
    &&& post.connections == pre.connections
    &&& post.id_count == pre.id_count
    &&& post.primary_display == pre.primary_display
    &&& post.camera_present == pre.camera_present
    &&& post.services@.len() == pre.services@.len()
    &&& (forall|j: int|
        0 <= j < pre.services@.len() && (#[trigger] pre.services@[j]).name != name
            ==> post.services@[j] == pre.services@[j])
    &&& (forall|j: int|
        0 <= j < pre.services@.len() && (#[trigger] pre.services@[j]).name == name
            ==> svc_set_sub_rel(pre.services@[j], post.services@[j], id, sub))
    &&& (!pre.has_service(name) ==> post == pre)
    &&& ((exists|j: int|
        0 <= j < pre.services@.len() && (#[trigger] pre.services@[j]).name == name
            && pre.services@[j].is_subscribed(id) == sub) ==> post == pre)
}

/// The identifiers that an uninterrupted run of `n` allocations hands out,
/// starting from counter value `start`: `get_new_id` returns the
/// incremented counter and stores it back, so the `k`-th call of the run
/// returns `start + k + 1`.
pub open spec fn allocated_ids(start: int, n: nat) -> Seq<int> {
    Seq::new(n, |k: int| start + k + 1)
}

/// Identifier uniqueness: any run of `n` successive allocations returns
/// `n` pairwise distinct identifiers.
pub proof fn lemma_allocated_ids_distinct(start: int, n: nat)
    ensures
        allocated_ids(start, n).len() == n,
        forall|a: int, b: int|
            0 <= a < b < n ==> allocated_ids(start, n)[a] != allocated_ids(start, n)[b],
{
}

/// Subscription idempotence: requesting a subscription twice in a row is
/// observably identical to requesting it once — the second transition
/// leaves the registry exactly as the first left it, with no duplicate
/// notification.
pub proof fn lemma_set_subscription_idempotent(
    s0: Server,
    s1: Server,
    s2: Server,
    name: ServiceName,
    id: i32,
)
    requires
        s0.wf(),
        set_subscription_rel(s0, s1, name, id, true),
        set_subscription_rel(s1, s2, name, id, true),
    ensures
        s2 == s1,
{
    if s0.has_service(name) {
        let j = choose|j: int|
            0 <= j < s0.services@.len() && (#[trigger] s0.services@[j]).name == name;
        assert(svc_set_sub_rel(s0.services@[j], s1.services@[j], id, true));
        assert(s1.services@[j].name == name && s1.services@[j].is_subscribed(id));
    } else {
        assert(s1 == s0);
        assert(!s1.has_service(name));
    }
}

/// Default-admission exclusion: a freshly admitted connection with an
/// empty denylist is subscribed to the primary monitor service, and to no
/// other video service — secondary monitors and cameras stay unsubscribed
/// until requested explicitly.
pub proof fn lemma_default_admission_excludes_secondary(
    s0: Server,
    s1: Server,
    conn: Connection,
    deny: Seq<ServiceName>,
)
    requires
        s0.wf(),
        add_connection_rel(s0, s1, conn, deny),
        deny.len() == 0,
        forall|j: int|
            0 <= j < s0.services@.len() ==> !(#[trigger] s0.services@[j]).is_subscribed(conn.id),
    ensures
        s0.has_service(spec_monitor_name(s0.primary_display)) ==> s1.subscribed(
            spec_monitor_name(s0.primary_display),
            conn.id,
        ),
        forall|n: ServiceName|
            n.spec_is_video() && n != spec_monitor_name(s0.primary_display)
                ==> !s1.subscribed(n, conn.id),
{
    if s0.has_service(spec_monitor_name(s0.primary_display)) {
        let primary = spec_monitor_name(s0.primary_display);
        let j = choose|j: int|
            0 <= j < s0.services@.len() && (#[trigger] s0.services@[j]).name == primary;
        assert(svc_admit_rel(
            s0.services@[j],
            s1.services@[j],
            conn.id,
            default_admissible(primary, s0.primary_display, deny),
        ));
        assert(default_admissible(primary, s0.primary_display, deny));
        assert(s1.services@[j].name == primary && s1.services@[j].is_subscribed(conn.id));
    }
    assert forall|n: ServiceName|
        n.spec_is_video() && n != spec_monitor_name(s0.primary_display) implies !s1.subscribed(
        n,
        conn.id,
    ) by {
        if s1.subscribed(n, conn.id) {
            let k = choose|k: int|
                0 <= k < s1.services@.len() && (#[trigger] s1.services@[k]).name == n
                    && s1.services@[k].is_subscribed(conn.id);
            assert(svc_admit_rel(
                s0.services@[k],
                s1.services@[k],
                conn.id,
                default_admissible(s0.services@[k].name, s0.primary_display, deny),
            ));
            assert(s0.services@[k].name == n);
            assert(!default_admissible(n, s0.primary_display, deny));
            assert(s1.services@[k] == s0.services@[k]);
        }
    }
}

/// Default admission is exact: a fresh connection ends up subscribed to
/// precisely the registered services the admission rule allows — no more,
/// no fewer — and no other connection's subscriptions move.
pub proof fn lemma_default_admission_exact(
    s0: Server,
    s1: Server,
    conn: Connection,
    deny: Seq<ServiceName>,
)
    requires
        s0.wf(),
        add_connection_rel(s0, s1, conn, deny),
        forall|j: int|
            0 <= j < s0.services@.len() ==> !(#[trigger] s0.services@[j]).is_subscribed(conn.id),
    ensures
        forall|n: ServiceName|
            #[trigger] s1.subscribed(n, conn.id) == (s0.has_service(n) && default_admissible(
                n,
                s0.primary_display,
                deny,
            )),
        forall|n: ServiceName, c: i32|
            c != conn.id ==> #[trigger] s1.subscribed(n, c) == s0.subscribed(n, c),
{
    assert forall|n: ServiceName|
        #[trigger] s1.subscribed(n, conn.id) == (s0.has_service(n) && default_admissible(
            n,
            s0.primary_display,
            deny,
        )) by {
        if s1.subscribed(n, conn.id) {
            let k = choose|k: int|
                0 <= k < s1.services@.len() && (#[trigger] s1.services@[k]).name == n
                    && s1.services@[k].is_subscribed(conn.id);
            assert(svc_admit_rel(
                s0.services@[k],
                s1.services@[k],
                conn.id,
                default_admissible(s0.services@[k].name, s0.primary_display, deny),
            ));
            assert(s0.services@[k].name == n);
        }
        if s0.has_service(n) && default_admissible(n, s0.primary_display, deny) {
            let k = choose|k: int|
                0 <= k < s0.services@.len() && (#[trigger] s0.services@[k]).name == n;
            assert(svc_admit_rel(
                s0.services@[k],
                s1.services@[k],
                conn.id,
                default_admissible(n, s0.primary_display, deny),
            ));
            assert(s1.services@[k].name == n && s1.services@[k].is_subscribed(conn.id));
        }
    }
    assert forall|n: ServiceName, c: i32|
        c != conn.id implies #[trigger] s1.subscribed(n, c) == s0.subscribed(n, c) by {
        if s0.subscribed(n, c) {
            let k = choose|k: int|
                0 <= k < s0.services@.len() && (#[trigger] s0.services@[k]).name == n
                    && s0.services@[k].is_subscribed(c);
            assert(svc_admit_rel(
                s0.services@[k],
                s1.services@[k],
                conn.id,
                default_admissible(n, s0.primary_display, deny),
            ));
            assert(s1.services@[k].name == n && s1.services@[k].is_subscribed(c));
        }
        if s1.subscribed(n, c) {
            let k = choose|k: int|
                0 <= k < s1.services@.len() && (#[trigger] s1.services@[k]).name == n
                    && s1.services@[k].is_subscribed(c);
            assert(svc_admit_rel(
                s0.services@[k],
                s1.services@[k],
                conn.id,
                default_admissible(s0.services@[k].name, s0.primary_display, deny),
            ));
            assert(s0.services@[k].name == n && s0.services@[k].is_subscribed(c));
        }
    }
}

/// Denylist enforcement: the default-admission path never subscribes a
/// fresh connection to a service whose name is on its denylist, even when
/// the service would otherwise qualify.
pub proof fn lemma_denylist_enforced(
    s0: Server,
    s1: Server,
    conn: Connection,
    deny: Seq<ServiceName>,
)
    requires
        s0.wf(),
        add_connection_rel(s0, s1, conn, deny),
        forall|j: int|
            0 <= j < s0.services@.len() ==> !(#[trigger] s0.services@[j]).is_subscribed(conn.id),
    ensures
        forall|n: ServiceName| deny.contains(n) ==> !s1.subscribed(n, conn.id),
{
    assert forall|n: ServiceName| deny.contains(n) implies !s1.subscribed(n, conn.id) by {
        if s1.subscribed(n, conn.id) {
            let k = choose|k: int|
                0 <= k < s1.services@.len() && (#[trigger] s1.services@[k]).name == n
                    && s1.services@[k].is_subscribed(conn.id);
            assert(svc_admit_rel(
                s0.services@[k],
                s1.services@[k],
                conn.id,
                default_admissible(s0.services@[k].name, s0.primary_display, deny),
            ));
            assert(s0.services@[k].name == n);
            assert(!default_admissible(n, s0.primary_display, deny));
            assert(s1.services@[k] == s0.services@[k]);
        }
    }
}

/// One half of capture-displays independence: a request that only enlists
/// (`enlist` set, `exclude` clear) subscribes the connection to every
/// listed, registered video service of the requested source and leaves
/// every other subscription — other services, other connections — exactly
/// as it was.
pub proof fn lemma_capture_enlist_only(
    pre: Server,
    post: Server,
    id: i32,
    source: VideoSource,
    displays: Seq<usize>,
)
    requires
        pre.wf(),
        capture_displays_rel(pre, post, id, source, displays, true, false),
    ensures
        forall|n: ServiceName|
            #[trigger] capture_target(n, source, displays) && pre.has_service(n)
                ==> post.subscribed(n, id),
        forall|n: ServiceName, c: i32|
            !capture_target(n, source, displays) || c != id ==> #[trigger] post.subscribed(n, c)
                == pre.subscribed(n, c),
{
    assert forall|n: ServiceName|
        #[trigger] capture_target(n, source, displays) && pre.has_service(n) implies
    post.subscribed(n, id) by {
        let j = choose|j: int|
            0 <= j < pre.services@.len() && (#[trigger] pre.services@[j]).name == n;
        assert(svc_capture_rel(
            pre.services@[j],
            post.services@[j],
            id,
            source,
            displays,
            true,
            false,
        ));
        assert(post.services@[j].name == n && post.services@[j].is_subscribed(id));
    }
    assert forall|n: ServiceName, c: i32|
        !capture_target(n, source, displays) || c != id implies #[trigger] post.subscribed(n, c)
        == pre.subscribed(n, c) by {
        if pre.subscribed(n, c) {
            let k = choose|k: int|
                0 <= k < pre.services@.len() && (#[trigger] pre.services@[k]).name == n
                    && pre.services@[k].is_subscribed(c);
            assert(svc_capture_rel(
                pre.services@[k],
                post.services@[k],
                id,
                source,
                displays,
                true,
                false,
            ));
            assert(post.services@[k].name == n && post.services@[k].is_subscribed(c));
        }
        if post.subscribed(n, c) {
            let k = choose|k: int|
                0 <= k < post.services@.len() && (#[trigger] post.services@[k]).name == n
                    && post.services@[k].is_subscribed(c);
            assert(svc_capture_rel(
                pre.services@[k],
                post.services@[k],
                id,
                source,
                displays,
                true,
                false,
            ));
            assert(pre.services@[k].name == n && pre.services@[k].is_subscribed(c));
        }
    }
}

/// The other half of capture-displays independence: a request that only
/// excludes (`enlist` clear, `exclude` set) unsubscribes the connection
/// from every unlisted video service of the requested source, leaves the
/// listed ones, the other video source and every non-video service
/// untouched, and never touches other connections.
pub proof fn lemma_capture_exclude_only(
    pre: Server,
    post: Server,
    id: i32,
    source: VideoSource,
    displays: Seq<usize>,
)
    requires
        pre.wf(),
        capture_displays_rel(pre, post, id, source, displays, false, true),
    ensures
        forall|n: ServiceName|
            #[trigger] source_matches(n, source) && !capture_target(n, source, displays)
                ==> !post.subscribed(n, id),
        forall|n: ServiceName, c: i32|
            capture_target(n, source, displays) || !source_matches(n, source) || c != id
                ==> #[trigger] post.subscribed(n, c) == pre.subscribed(n, c),
{
    assert forall|n: ServiceName|
        #[trigger] source_matches(n, source) && !capture_target(n, source, displays) implies
    !post.subscribed(n, id) by {
        if post.subscribed(n, id) {
            let k = choose|k: int|
                0 <= k < post.services@.len() && (#[trigger] post.services@[k]).name == n
                    && post.services@[k].is_subscribed(id);
            assert(svc_capture_rel(
                pre.services@[k],
                post.services@[k],
                id,
                source,
                displays,
                false,
                true,
            ));
            assert(pre.services@[k].name == n);
        }
    }
    assert forall|n: ServiceName, c: i32|
        capture_target(n, source, displays) || !source_matches(n, source) || c != id implies #[trigger] post.subscribed(
        n,
        c,
    ) == pre.subscribed(n, c) by {
        if pre.subscribed(n, c) {
            let k = choose|k: int|
                0 <= k < pre.services@.len() && (#[trigger] pre.services@[k]).name == n
                    && pre.services@[k].is_subscribed(c);
            assert(svc_capture_rel(
                pre.services@[k],
                post.services@[k],
                id,
                source,
                displays,
                false,
                true,
            ));
            assert(post.services@[k].name == n && post.services@[k].is_subscribed(c));
        }
        if post.subscribed(n, c) {
            let k = choose|k: int|
                0 <= k < post.services@.len() && (#[trigger] post.services@[k]).name == n
                    && post.services@[k].is_subscribed(c);
            assert(svc_capture_rel(
                pre.services@[k],
                post.services@[k],
                id,
                source,
                displays,
                false,
                true,
            ));
            assert(pre.services@[k].name == n && pre.services@[k].is_subscribed(c));
        }
    }
}

} // verus!
