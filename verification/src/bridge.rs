//! The host-bridge service message schema: the daemon calls back into the
//! host through per-feature delegates (apps, mobile, network, power,
//! preferences), and the host registers those delegates and feeds preference
//! changes the other way.  JSON payloads travel as their text, the codec
//! being external.

use crate::client_object::ClientObject;
use crate::messages::{ObjectRef, ReleaseObjectRequest};
use crate::session::{object_key, Session};
use crate::traits::TrackerId;
use vstd::prelude::*;

verus! {

/// The schema fingerprint the daemon must agree on for this service.
pub const SERVICE_FINGERPRINT: &'static str =
    "c3459eb31483ae8ab5299bc3e983399f45953b5b04c2b2991ecaa61c34c761e";

/// Hands out the object ids under which delegates are registered; the first
/// assigned id is 1.
#[derive(Debug)]
pub struct ObjectIdGenerator {
    current_id: TrackerId,
}

impl ObjectIdGenerator {
    /// The id most recently handed out (0 before any).
    pub closed spec fn spec_current_id(self) -> TrackerId {
        self.current_id
    }

    pub fn next_id(&mut self) -> (r: TrackerId)
        requires
            old(self).spec_current_id() < u32::MAX,
        ensures
            r == old(self).spec_current_id() + 1,
            final(self).spec_current_id() == r,
    {
        self.current_id = self.current_id + 1;
        self.current_id
    }
}

impl Default for ObjectIdGenerator {
    /// A generator that has handed out nothing yet.
    fn default() -> (r: Self)
        ensures
            r.spec_current_id() == 0,
    {
        ObjectIdGenerator { current_id: 0 }
    }
}

#[derive(Clone, Copy, Debug, PartialEq, Eq, Structural)]
pub enum CardInfoType {
    Imei,
    Imsi,
    Msisdn,
}

/// The connection state of a network interface.
#[derive(Clone, Copy, Debug, PartialEq, Eq, Structural)]
pub enum NetworkState {
    NetworkStateUnknown,
    NetworkStateConnecting,
    NetworkStateConnected,
    NetworkStateDisconnecting,
    NetworkStateDisconnected,
    NetworkStateEnabled,
    NetworkStateDisabled,
    NetworkStateSuspended,
}

impl From<i32> for NetworkState {
    /// The state encoded by the host-side integer; anything unassigned maps
    /// to unknown.
    fn from(value: i32) -> (r: NetworkState) {
        match value {
            0 => NetworkState::NetworkStateConnecting,
            1 => NetworkState::NetworkStateConnected,
            2 => NetworkState::NetworkStateDisconnecting,
            3 => NetworkState::NetworkStateDisconnected,
            4 => NetworkState::NetworkStateEnabled,
            5 => NetworkState::NetworkStateDisabled,
            6 => NetworkState::NetworkStateSuspended,
            _ => NetworkState::NetworkStateUnknown,
        }
    }
}

impl vstd::std_specs::convert::FromSpecImpl<i32> for NetworkState {
    open spec fn obeys_from_spec() -> bool {
        true
    }

    open spec fn from_spec(value: i32) -> Self {
        match value {
            0 => NetworkState::NetworkStateConnecting,
            1 => NetworkState::NetworkStateConnected,
            2 => NetworkState::NetworkStateDisconnecting,
            3 => NetworkState::NetworkStateDisconnected,
            4 => NetworkState::NetworkStateEnabled,
            5 => NetworkState::NetworkStateDisabled,
            6 => NetworkState::NetworkStateSuspended,
            _ => NetworkState::NetworkStateUnknown,
        }
    }
}

/// The kind of a network interface.
#[derive(Clone, Copy, Debug, PartialEq, Eq, Structural)]
pub enum NetworkType {
    NetworkTypeUnknown,
    NetworkTypeWifi,
    NetworkTypeMobile,
    NetworkTypeMobileMms,
    NetworkTypeMobileSupl,
    NetworkTypeWifiP2p,
    NetworkTypeMobileIms,
    NetworkTypeMobileDun,
    NetworkTypeMobileFota,
    NetworkTypeEthernet,
    NetworkTypeMobileHipri,
    NetworkTypeMobileCbs,
    NetworkTypeMobileIa,
    NetworkTypeMobileEcc,
    NetworkTypeMobileXcap,
}

impl From<i32> for NetworkType {
    /// The type encoded by the host-side integer; anything unassigned maps
    /// to unknown.
    fn from(value: i32) -> (r: NetworkType) {
        match value {
            0 => NetworkType::NetworkTypeWifi,
            1 => NetworkType::NetworkTypeMobile,
            2 => NetworkType::NetworkTypeMobileMms,
            3 => NetworkType::NetworkTypeMobileSupl,
            4 => NetworkType::NetworkTypeWifiP2p,
            5 => NetworkType::NetworkTypeMobileIms,
            6 => NetworkType::NetworkTypeMobileDun,
            7 => NetworkType::NetworkTypeMobileFota,
            8 => NetworkType::NetworkTypeEthernet,
            9 => NetworkType::NetworkTypeMobileHipri,
            10 => NetworkType::NetworkTypeMobileCbs,
            11 => NetworkType::NetworkTypeMobileIa,
            12 => NetworkType::NetworkTypeMobileEcc,
            13 => NetworkType::NetworkTypeMobileXcap,
            _ => NetworkType::NetworkTypeUnknown,
        }
    }
}

impl vstd::std_specs::convert::FromSpecImpl<i32> for NetworkType {
    open spec fn obeys_from_spec() -> bool {
        true
    }

    open spec fn from_spec(value: i32) -> Self {
        match value {
            0 => NetworkType::NetworkTypeWifi,
            1 => NetworkType::NetworkTypeMobile,
            2 => NetworkType::NetworkTypeMobileMms,
            3 => NetworkType::NetworkTypeMobileSupl,
            4 => NetworkType::NetworkTypeWifiP2p,
            5 => NetworkType::NetworkTypeMobileIms,
            6 => NetworkType::NetworkTypeMobileDun,
            7 => NetworkType::NetworkTypeMobileFota,
            8 => NetworkType::NetworkTypeEthernet,
            9 => NetworkType::NetworkTypeMobileHipri,
            10 => NetworkType::NetworkTypeMobileCbs,
            11 => NetworkType::NetworkTypeMobileIa,
            12 => NetworkType::NetworkTypeMobileEcc,
            13 => NetworkType::NetworkTypeMobileXcap,
            _ => NetworkType::NetworkTypeUnknown,
        }
    }
}

/// The state and kind of the active network.
#[derive(Clone, Copy, Debug, PartialEq, Eq, Structural)]
pub struct NetworkInfo {
    pub network_state: NetworkState,
    pub network_type: NetworkType,
}

/// A mobile network operator, by its network and country codes.
#[derive(Clone, Debug)]
pub struct NetworkOperator {
    pub mnc: String,
    pub mcc: String,
}

/// One contact as stored on a SIM card.
#[derive(Clone, Debug)]
pub struct SimContactInfo {
    pub id: String,
    pub tel: String,
    pub email: String,
    pub name: String,
    pub category: String,
}

/// The requests the host sends the bridge service: delegate registrations,
/// preference changes, and the replies its delegates owe the daemon.  JSON
/// payloads are carried as text.
#[derive(Clone, Debug)]
pub enum GeckoBridgeFromClient {
    GeckoFeaturesBoolPrefChanged(String, bool),
    GeckoFeaturesCharPrefChanged(String, String),
    GeckoFeaturesImportSimContacts(Option<Vec<SimContactInfo>>),
    GeckoFeaturesIntPrefChanged(String, i64),
    GeckoFeaturesRegisterToken(String, String, Option<Vec<String>>),
    GeckoFeaturesSetAppsServiceDelegate(ObjectRef),
    GeckoFeaturesSetMobileManagerDelegate(ObjectRef),
    GeckoFeaturesSetNetworkManagerDelegate(ObjectRef),
    GeckoFeaturesSetPowerManagerDelegate(ObjectRef),
    GeckoFeaturesSetPreferenceDelegate(ObjectRef),
    AppsServiceDelegateOnBootSuccess,
    AppsServiceDelegateOnBootError,
    AppsServiceDelegateOnBootDoneSuccess,
    AppsServiceDelegateOnBootDoneError,
    AppsServiceDelegateOnClearSuccess,
    AppsServiceDelegateOnClearError,
    AppsServiceDelegateOnInstallSuccess,
    AppsServiceDelegateOnInstallError,
    AppsServiceDelegateOnUninstallSuccess,
    AppsServiceDelegateOnUninstallError,
    AppsServiceDelegateOnUpdateSuccess,
    AppsServiceDelegateOnUpdateError,
    MobileManagerDelegateGetCardInfoSuccess(String),
    MobileManagerDelegateGetCardInfoError,
    MobileManagerDelegateGetMncMccSuccess(NetworkOperator),
    MobileManagerDelegateGetMncMccError,
    NetworkManagerDelegateGetNetworkInfoSuccess(NetworkInfo),
    NetworkManagerDelegateGetNetworkInfoError,
    PowerManagerDelegateRequestWakelockSuccess(ObjectRef),
    PowerManagerDelegateRequestWakelockError,
    PowerManagerDelegateSetScreenEnabledSuccess,
    PowerManagerDelegateSetScreenEnabledError,
    PreferenceDelegateGetBoolSuccess(bool),
    PreferenceDelegateGetBoolError,
    PreferenceDelegateGetCharSuccess(String),
    PreferenceDelegateGetCharError,
    PreferenceDelegateGetIntSuccess(i64),
    PreferenceDelegateGetIntError,
    PreferenceDelegateSetBoolSuccess,
    PreferenceDelegateSetBoolError,
    PreferenceDelegateSetCharSuccess,
    PreferenceDelegateSetCharError,
    PreferenceDelegateSetIntSuccess,
    PreferenceDelegateSetIntError,
    WakelockGetTopicSuccess(String),
    WakelockGetTopicError,
    WakelockUnlockSuccess,
    WakelockUnlockError,
}

/// The per-feature delegates the host can register with the bridge.
#[derive(Clone, Copy, Debug, PartialEq, Eq, Hash, Structural)]
pub enum DelegateKind {
    AppsService,
    MobileManager,
    NetworkManager,
    PowerManager,
    Preference,
}

/// A delegate slot is either empty or holds a proxy for this service whose
/// remote release is still owed.
pub open spec fn slot_ok<H>(service_id: TrackerId, slot: Option<(ClientObject, H)>) -> bool {
    match slot {
        Some(p) => p.0.spec_service_id() == service_id && p.0.releases_on_teardown(),
        None => true,
    }
}

/// The entries a delegate slot contributes to the reconnect replay.
pub open spec fn slot_entry<H>(slot: Option<(ClientObject, H)>, kind: DelegateKind) -> Seq<
    (DelegateKind, H),
> {
    match slot {
        Some(p) => seq![(kind, p.1)],
        None => Seq::empty(),
    }
}

/// What registering a delegate produced: its assigned object id, the
/// registration request to send, and — when it replaced a live delegate —
/// the release owed for the replaced one.
pub struct SetDelegateOutcome {
    pub object_id: TrackerId,
    pub request: GeckoBridgeFromClient,
    pub released: Option<ReleaseObjectRequest>,
}

/// The bridge service client: holds at most one live proxy per delegate
/// kind and regenerates their registrations after a reconnect.  `H` is the
/// host delegate handle kept for that replay.
pub struct BridgeClient<H> {
    service_id: TrackerId,
    object_ids: ObjectIdGenerator,
    apps_service: Option<(ClientObject, H)>,
    mobile_manager: Option<(ClientObject, H)>,
    network_manager: Option<(ClientObject, H)>,
    power_manager: Option<(ClientObject, H)>,
    preference: Option<(ClientObject, H)>,
}

impl<H> BridgeClient<H> {
    pub closed spec fn spec_service_id(self) -> TrackerId {
        self.service_id
    }

    /// The object id most recently assigned to a delegate.
    pub closed spec fn spec_current_object_id(self) -> TrackerId {
        self.object_ids.spec_current_id()
    }

    /// The live slot for one delegate kind.
    pub closed spec fn slot(self, kind: DelegateKind) -> Option<(ClientObject, H)> {
        match kind {
            DelegateKind::AppsService => self.apps_service,
            DelegateKind::MobileManager => self.mobile_manager,
            DelegateKind::NetworkManager => self.network_manager,
            DelegateKind::PowerManager => self.power_manager,
            DelegateKind::Preference => self.preference,
        }
    }

    /// Every live slot holds a proxy for its own object under this service,
    /// its remote release still owed.
    pub open spec fn wf(self) -> bool {
        forall|kind: DelegateKind| slot_ok(self.spec_service_id(), #[trigger] self.slot(kind))
    }

    /// A fresh client for the resolved bridge service, with no delegates.
    pub fn new(service_id: TrackerId) -> (r: Self)
        ensures
            r.wf(),
            r.spec_service_id() == service_id,
            r.spec_current_object_id() == 0,
            forall|kind: DelegateKind| (#[trigger] r.slot(kind)) is None,
    {
        BridgeClient {
            service_id,
            object_ids: ObjectIdGenerator::default(),
            apps_service: None,
            mobile_manager: None,
            network_manager: None,
            power_manager: None,
            preference: None,
        }
    }

    /// Registers the host delegate of the given kind: assigns it the next
    /// object id, registers `object_handle` with the transport under it, and
    /// returns the registration request to send.  A delegate it replaces is
    /// torn down — unregistered and owed exactly one release.
    pub fn set_delegate<C, O, B>(
        &mut self,
        kind: DelegateKind,
        handle: H,
        object_handle: O,
        transport: &mut Session<C, O, B>,
    ) -> (r: SetDelegateOutcome)
        requires
            old(self).wf(),
            old(self).spec_current_object_id() < u32::MAX,
            old(transport).wf(),
        ensures
            final(self).wf(),
            final(self).spec_service_id() == old(self).spec_service_id(),
            r.object_id == old(self).spec_current_object_id() + 1,
            final(self).spec_current_object_id() == r.object_id,
            r.request == (match kind {
                DelegateKind::AppsService => GeckoBridgeFromClient::GeckoFeaturesSetAppsServiceDelegate(
                    ObjectRef(r.object_id),
                ),
                DelegateKind::MobileManager => GeckoBridgeFromClient::GeckoFeaturesSetMobileManagerDelegate(
                    ObjectRef(r.object_id),
                ),
                DelegateKind::NetworkManager => GeckoBridgeFromClient::GeckoFeaturesSetNetworkManagerDelegate(
                    ObjectRef(r.object_id),
                ),
                DelegateKind::PowerManager => GeckoBridgeFromClient::GeckoFeaturesSetPowerManagerDelegate(
                    ObjectRef(r.object_id),
                ),
                DelegateKind::Preference => GeckoBridgeFromClient::GeckoFeaturesSetPreferenceDelegate(
                    ObjectRef(r.object_id),
                ),
            }),
            final(self).slot(kind) matches Some(p) && p.0.spec_service_id() == old(
                self,
            ).spec_service_id() && p.0.spec_object_id() == r.object_id && p.1 == handle,
            forall|other: DelegateKind|
                other != kind ==> #[trigger] final(self).slot(other) == old(self).slot(other),
            final(transport).wf(),
            final(transport).pending_map() == old(transport).pending_map(),
            final(transport).connected() == old(transport).connected(),
            final(transport).last_request_id() == old(transport).last_request_id(),
            final(transport).observers_seq() == old(transport).observers_seq(),
            match old(self).slot(kind) {
                Some(p) => {
                    &&& r.released matches Some(q) && q.service == old(self).spec_service_id()
                        && q.object == p.0.spec_object_id()
                    &&& final(transport).objects_map() == old(transport).objects_map().remove(
                        object_key(old(self).spec_service_id(), p.0.spec_object_id()),
                    ).insert(object_key(old(self).spec_service_id(), r.object_id), object_handle)
                },
                None => {
                    &&& r.released is None
                    &&& final(transport).objects_map() == old(transport).objects_map().insert(
                        object_key(old(self).spec_service_id(), r.object_id),
                        object_handle,
                    )
                },
            },
    {
        let object_id = self.object_ids.next_id();
        let previous = match kind {
            DelegateKind::AppsService => self.apps_service.take(),
            DelegateKind::MobileManager => self.mobile_manager.take(),
            DelegateKind::NetworkManager => self.network_manager.take(),
            DelegateKind::PowerManager => self.power_manager.take(),
            DelegateKind::Preference => self.preference.take(),
        };
        let released = match previous {
            Some((proxy, _stale_handle)) => proxy.teardown(transport),
            None => None,
        };
        let proxy = ClientObject::new(self.service_id, object_id, object_handle, transport);
        let request = match kind {
            DelegateKind::AppsService => {
                self.apps_service = Some((proxy, handle));
                GeckoBridgeFromClient::GeckoFeaturesSetAppsServiceDelegate(ObjectRef(object_id))
            },
            DelegateKind::MobileManager => {
                self.mobile_manager = Some((proxy, handle));
                GeckoBridgeFromClient::GeckoFeaturesSetMobileManagerDelegate(ObjectRef(object_id))
            },
            DelegateKind::NetworkManager => {
                self.network_manager = Some((proxy, handle));
                GeckoBridgeFromClient::GeckoFeaturesSetNetworkManagerDelegate(ObjectRef(object_id))
            },
            DelegateKind::PowerManager => {
                self.power_manager = Some((proxy, handle));
                GeckoBridgeFromClient::GeckoFeaturesSetPowerManagerDelegate(ObjectRef(object_id))
            },
            DelegateKind::Preference => {
                self.preference = Some((proxy, handle));
                GeckoBridgeFromClient::GeckoFeaturesSetPreferenceDelegate(ObjectRef(object_id))
            },
        };
        proof {
            assert forall|k: DelegateKind| slot_ok(
                self.spec_service_id(),
                #[trigger] self.slot(k),
            ) by {
                if k != kind {
                    assert(self.slot(k) == old(self).slot(k));
                    assert(slot_ok(old(self).spec_service_id(), old(self).slot(k)));
                }
            }
            assert forall|other: DelegateKind| other != kind implies #[trigger] self.slot(other)
                == old(self).slot(other) by {}
        }
        SetDelegateOutcome { object_id, request, released }
    }

    /// The request telling the daemon a character preference changed.
    pub fn char_pref_changed(&self, key: String, value: String) -> (r: GeckoBridgeFromClient)
        ensures
            r == GeckoBridgeFromClient::GeckoFeaturesCharPrefChanged(key, value),
    {
        GeckoBridgeFromClient::GeckoFeaturesCharPrefChanged(key, value)
    }

    /// The request telling the daemon an integer preference changed.
    pub fn int_pref_changed(&self, key: String, value: i64) -> (r: GeckoBridgeFromClient)
        ensures
            r == GeckoBridgeFromClient::GeckoFeaturesIntPrefChanged(key, value),
    {
        GeckoBridgeFromClient::GeckoFeaturesIntPrefChanged(key, value)
    }

    /// The request telling the daemon a boolean preference changed.
    pub fn bool_pref_changed(&self, key: String, value: bool) -> (r: GeckoBridgeFromClient)
        ensures
            r == GeckoBridgeFromClient::GeckoFeaturesBoolPrefChanged(key, value),
    {
        GeckoBridgeFromClient::GeckoFeaturesBoolPrefChanged(key, value)
    }

    /// The request registering a push token for a set of permissions.
    pub fn register_token(&self, token: String, url: String, permissions: Option<Vec<String>>) -> (r:
        GeckoBridgeFromClient)
        ensures
            r == GeckoBridgeFromClient::GeckoFeaturesRegisterToken(token, url, permissions),
    {
        GeckoBridgeFromClient::GeckoFeaturesRegisterToken(token, url, permissions)
    }

    /// The request importing the host's SIM contacts.
    pub fn import_sim_contacts(&self, contacts: Option<Vec<SimContactInfo>>) -> (r:
        GeckoBridgeFromClient)
        ensures
            r == GeckoBridgeFromClient::GeckoFeaturesImportSimContacts(contacts),
    {
        GeckoBridgeFromClient::GeckoFeaturesImportSimContacts(contacts)
    }

    /// Regenerates, after a disconnect, the registrations needed to restore
    /// the daemon-side delegates: one (kind, handle) pair per live slot, in
    /// a fixed order, while every slot empties.  The stale proxies are
    /// marked `dont_release` and discarded — the dead connection's remote
    /// ids are never released.
    pub fn tasks_to_reconnect(&mut self) -> (r: Vec<(DelegateKind, H)>)
        requires
            old(self).wf(),
        ensures
            final(self).wf(),
            final(self).spec_service_id() == old(self).spec_service_id(),
            final(self).spec_current_object_id() == old(self).spec_current_object_id(),
            forall|kind: DelegateKind| (#[trigger] final(self).slot(kind)) is None,
            r@ == slot_entry(old(self).slot(DelegateKind::AppsService), DelegateKind::AppsService)
                + slot_entry(old(self).slot(DelegateKind::Preference), DelegateKind::Preference)
                + slot_entry(
                old(self).slot(DelegateKind::MobileManager),
                DelegateKind::MobileManager,
            ) + slot_entry(
                old(self).slot(DelegateKind::NetworkManager),
                DelegateKind::NetworkManager,
            ) + slot_entry(old(self).slot(DelegateKind::PowerManager), DelegateKind::PowerManager),
    {
        let mut r: Vec<(DelegateKind, H)> = Vec::new();
        if let Some((mut proxy, handle)) = self.apps_service.take() {
            proxy.dont_release();
            proxy.discard();
            r.push((DelegateKind::AppsService, handle));
        }
        if let Some((mut proxy, handle)) = self.preference.take() {
            proxy.dont_release();
            proxy.discard();
            r.push((DelegateKind::Preference, handle));
        }
        if let Some((mut proxy, handle)) = self.mobile_manager.take() {
            proxy.dont_release();
            proxy.discard();
            r.push((DelegateKind::MobileManager, handle));
        }
        if let Some((mut proxy, handle)) = self.network_manager.take() {
            proxy.dont_release();
            proxy.discard();
            r.push((DelegateKind::NetworkManager, handle));
        }
        if let Some((mut proxy, handle)) = self.power_manager.take() {
            proxy.dont_release();
            proxy.discard();
            r.push((DelegateKind::PowerManager, handle));
        }
        proof {
            let s = r@;
            let expected = slot_entry(
                old(self).slot(DelegateKind::AppsService),
                DelegateKind::AppsService,
            ) + slot_entry(old(self).slot(DelegateKind::Preference), DelegateKind::Preference)
                + slot_entry(
                old(self).slot(DelegateKind::MobileManager),
                DelegateKind::MobileManager,
            ) + slot_entry(
                old(self).slot(DelegateKind::NetworkManager),
                DelegateKind::NetworkManager,
            ) + slot_entry(old(self).slot(DelegateKind::PowerManager), DelegateKind::PowerManager);
            assert(s =~= expected);
        }
        r
    }
}

/// A preference operation the daemon asks the host to perform.
#[derive(Clone, Debug)]
pub enum PreferenceCommand {
    GetInt(String),
    GetChar(String),
    GetBool(String),
    SetInt(String, i64),
    SetChar(String, String),
    SetBool(String, bool),
}

/// What the host's preference store answered: the value read, a bare
/// completion for a write, or failure.
#[derive(Clone, Debug)]
pub enum PreferenceOutcome {
    IntValue(i64),
    CharValue(String),
    BoolValue(bool),
    Done,
    Failed,
}

/// The preference command carried by a decoded server-initiated request
/// (`None` after a decode mismatch, which is reported and dropped).
pub fn preference_delegate_command(decoded: Option<GeckoBridgeToClient>) -> (r: Option<
    PreferenceCommand,
>)
    ensures
        match decoded {
            Some(GeckoBridgeToClient::PreferenceDelegateGetInt(k)) => r == Some(
                PreferenceCommand::GetInt(k),
            ),
            Some(GeckoBridgeToClient::PreferenceDelegateGetChar(k)) => r == Some(
                PreferenceCommand::GetChar(k),
            ),
            Some(GeckoBridgeToClient::PreferenceDelegateGetBool(k)) => r == Some(
                PreferenceCommand::GetBool(k),
            ),
            Some(GeckoBridgeToClient::PreferenceDelegateSetInt(k, v)) => r == Some(
                PreferenceCommand::SetInt(k, v),
            ),
            Some(GeckoBridgeToClient::PreferenceDelegateSetChar(k, v)) => r == Some(
                PreferenceCommand::SetChar(k, v),
            ),
            Some(GeckoBridgeToClient::PreferenceDelegateSetBool(k, v)) => r == Some(
                PreferenceCommand::SetBool(k, v),
            ),
            _ => r is None,
        },
{
    match decoded {
        Some(GeckoBridgeToClient::PreferenceDelegateGetInt(k)) => Some(
            PreferenceCommand::GetInt(k),
        ),
        Some(GeckoBridgeToClient::PreferenceDelegateGetChar(k)) => Some(
            PreferenceCommand::GetChar(k),
        ),
        Some(GeckoBridgeToClient::PreferenceDelegateGetBool(k)) => Some(
            PreferenceCommand::GetBool(k),
        ),
        Some(GeckoBridgeToClient::PreferenceDelegateSetInt(k, v)) => Some(
            PreferenceCommand::SetInt(k, v),
        ),
        Some(GeckoBridgeToClient::PreferenceDelegateSetChar(k, v)) => Some(
            PreferenceCommand::SetChar(k, v),
        ),
        Some(GeckoBridgeToClient::PreferenceDelegateSetBool(k, v)) => Some(
            PreferenceCommand::SetBool(k, v),
        ),
        _ => None,
    }
}

/// The reply the delegate owes the daemon for one command, given what the
/// host answered: the success variant matching the command when the host
/// produced the right kind of result, the matching error variant otherwise.
pub fn preference_delegate_reply(command: &PreferenceCommand, outcome: PreferenceOutcome) -> (r:
    GeckoBridgeFromClient)
    ensures
        match *command {
            PreferenceCommand::GetInt(_) => match outcome {
                PreferenceOutcome::IntValue(v) => r
                    == GeckoBridgeFromClient::PreferenceDelegateGetIntSuccess(v),
                _ => r is PreferenceDelegateGetIntError,
            },
            PreferenceCommand::GetChar(_) => match outcome {
                PreferenceOutcome::CharValue(v) => r
                    == GeckoBridgeFromClient::PreferenceDelegateGetCharSuccess(v),
                _ => r is PreferenceDelegateGetCharError,
            },
            PreferenceCommand::GetBool(_) => match outcome {
                PreferenceOutcome::BoolValue(v) => r
                    == GeckoBridgeFromClient::PreferenceDelegateGetBoolSuccess(v),
                _ => r is PreferenceDelegateGetBoolError,
            },
            PreferenceCommand::SetInt(_, _) => match outcome {
                PreferenceOutcome::Done => r is PreferenceDelegateSetIntSuccess,
                _ => r is PreferenceDelegateSetIntError,
            },
            PreferenceCommand::SetChar(_, _) => match outcome {
                PreferenceOutcome::Done => r is PreferenceDelegateSetCharSuccess,
                _ => r is PreferenceDelegateSetCharError,
            },
            PreferenceCommand::SetBool(_, _) => match outcome {
                PreferenceOutcome::Done => r is PreferenceDelegateSetBoolSuccess,
                _ => r is PreferenceDelegateSetBoolError,
            },
        },
{
    match command {
        PreferenceCommand::GetInt(_) => match outcome {
            PreferenceOutcome::IntValue(v) => GeckoBridgeFromClient::PreferenceDelegateGetIntSuccess(
                v,
            ),
            _ => GeckoBridgeFromClient::PreferenceDelegateGetIntError,
        },
        PreferenceCommand::GetChar(_) => match outcome {
            PreferenceOutcome::CharValue(
                v,
            ) => GeckoBridgeFromClient::PreferenceDelegateGetCharSuccess(v),
            _ => GeckoBridgeFromClient::PreferenceDelegateGetCharError,
        },
        PreferenceCommand::GetBool(_) => match outcome {
            PreferenceOutcome::BoolValue(
                v,
            ) => GeckoBridgeFromClient::PreferenceDelegateGetBoolSuccess(v),
            _ => GeckoBridgeFromClient::PreferenceDelegateGetBoolError,
        },
        PreferenceCommand::SetInt(_, _) => match outcome {
            PreferenceOutcome::Done => GeckoBridgeFromClient::PreferenceDelegateSetIntSuccess,
            _ => GeckoBridgeFromClient::PreferenceDelegateSetIntError,
        },
        PreferenceCommand::SetChar(_, _) => match outcome {
            PreferenceOutcome::Done => GeckoBridgeFromClient::PreferenceDelegateSetCharSuccess,
            _ => GeckoBridgeFromClient::PreferenceDelegateSetCharError,
        },
        PreferenceCommand::SetBool(_, _) => match outcome {
            PreferenceOutcome::Done => GeckoBridgeFromClient::PreferenceDelegateSetBoolSuccess,
            _ => GeckoBridgeFromClient::PreferenceDelegateSetBoolError,
        },
    }
}

/// The responses and delegate calls the bridge service sends the host.
/// JSON payloads are carried as text.
#[derive(Clone, Debug)]
pub enum GeckoBridgeToClient {
    GeckoFeaturesBoolPrefChangedSuccess,
    GeckoFeaturesBoolPrefChangedError,
    GeckoFeaturesCharPrefChangedSuccess,
    GeckoFeaturesCharPrefChangedError,
    GeckoFeaturesImportSimContactsSuccess,
    GeckoFeaturesImportSimContactsError,
    GeckoFeaturesIntPrefChangedSuccess,
    GeckoFeaturesIntPrefChangedError,
    GeckoFeaturesRegisterTokenSuccess,
    GeckoFeaturesRegisterTokenError,
    GeckoFeaturesSetAppsServiceDelegateSuccess,
    GeckoFeaturesSetAppsServiceDelegateError,
    GeckoFeaturesSetMobileManagerDelegateSuccess,
    GeckoFeaturesSetMobileManagerDelegateError,
    GeckoFeaturesSetNetworkManagerDelegateSuccess,
    GeckoFeaturesSetNetworkManagerDelegateError,
    GeckoFeaturesSetPowerManagerDelegateSuccess,
    GeckoFeaturesSetPowerManagerDelegateError,
    GeckoFeaturesSetPreferenceDelegateSuccess,
    GeckoFeaturesSetPreferenceDelegateError,
    AppsServiceDelegateOnBoot(String, String),
    AppsServiceDelegateOnBootDone,
    AppsServiceDelegateOnClear(String, String),
    AppsServiceDelegateOnInstall(String, String),
    AppsServiceDelegateOnUninstall(String),
    AppsServiceDelegateOnUpdate(String, String),
    MobileManagerDelegateGetCardInfo(i64, CardInfoType),
    MobileManagerDelegateGetMncMcc(i64, bool),
    NetworkManagerDelegateGetNetworkInfo,
    PowerManagerDelegateRequestWakelock(String),
    PowerManagerDelegateSetScreenEnabled(bool, bool),
    PreferenceDelegateGetBool(String),
    PreferenceDelegateGetChar(String),
    PreferenceDelegateGetInt(String),
    PreferenceDelegateSetBool(String, bool),
    PreferenceDelegateSetChar(String, String),
    PreferenceDelegateSetInt(String, i64),
    WakelockGetTopic,
    WakelockUnlock,
}

} // verus!
