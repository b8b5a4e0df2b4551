//! The host-bridge preference delegate decisions and the settings change
//! event classification.

use sidl_client::bridge::{
    preference_delegate_command, preference_delegate_reply, BridgeClient, DelegateKind,
    GeckoBridgeFromClient, GeckoBridgeToClient, PreferenceCommand, PreferenceOutcome,
};
use sidl_client::messages::ObjectRef;
use sidl_client::session::Session;
use sidl_client::contacts::{
    classify_find_blocked_numbers, classify_matches, BlockedNumberFindOptions, ContactsClient,
    ContactsManagerFromClient, ContactsManagerToClient, FilterByOption, FilterOption,
    FindBlockedNumbersOutcome, MatchesOutcome,
};
use sidl_client::event_manager::EventManager;
use sidl_client::settings::{
    settings_change_event, GetError, GetErrorReason, SettingInfo, SettingsClient,
    SettingsManagerFromClient, SettingsManagerToClient, SettingsObserverDispatch,
    SettingsObserverWrapper,
};

#[test]
fn preference_requests_map_to_commands() {
    let cmd = preference_delegate_command(Some(GeckoBridgeToClient::PreferenceDelegateGetInt(
        "dom.enabled".to_string(),
    )));
    assert!(matches!(cmd, Some(PreferenceCommand::GetInt(k)) if k == "dom.enabled"));

    let cmd = preference_delegate_command(Some(GeckoBridgeToClient::PreferenceDelegateSetChar(
        "app.locale".to_string(),
        "en-US".to_string(),
    )));
    assert!(matches!(
        cmd,
        Some(PreferenceCommand::SetChar(k, v)) if k == "app.locale" && v == "en-US"
    ));

    // Anything that is not a preference operation — or did not decode — is
    // reported and dropped.
    assert!(preference_delegate_command(Some(GeckoBridgeToClient::WakelockUnlock)).is_none());
    assert!(preference_delegate_command(None).is_none());
}

#[test]
fn preference_replies_follow_command_and_outcome() {
    let get_int = PreferenceCommand::GetInt("a".to_string());
    assert!(matches!(
        preference_delegate_reply(&get_int, PreferenceOutcome::IntValue(4)),
        GeckoBridgeFromClient::PreferenceDelegateGetIntSuccess(4)
    ));
    assert!(matches!(
        preference_delegate_reply(&get_int, PreferenceOutcome::Failed),
        GeckoBridgeFromClient::PreferenceDelegateGetIntError
    ));
    // A host answer of the wrong kind is an error, never a mislabeled success.
    assert!(matches!(
        preference_delegate_reply(&get_int, PreferenceOutcome::BoolValue(true)),
        GeckoBridgeFromClient::PreferenceDelegateGetIntError
    ));

    let get_char = PreferenceCommand::GetChar("b".to_string());
    assert!(matches!(
        preference_delegate_reply(&get_char, PreferenceOutcome::CharValue("x".to_string())),
        GeckoBridgeFromClient::PreferenceDelegateGetCharSuccess(v) if v == "x"
    ));

    let set_bool = PreferenceCommand::SetBool("c".to_string(), true);
    assert!(matches!(
        preference_delegate_reply(&set_bool, PreferenceOutcome::Done),
        GeckoBridgeFromClient::PreferenceDelegateSetBoolSuccess
    ));
    assert!(matches!(
        preference_delegate_reply(&set_bool, PreferenceOutcome::Failed),
        GeckoBridgeFromClient::PreferenceDelegateSetBoolError
    ));
}

#[test]
fn settings_change_events_surface_the_setting() {
    let info = SettingInfo { name: "screen.brightness".to_string(), value: "0.7".to_string() };
    let delivered =
        settings_change_event(Some(SettingsManagerToClient::SettingsFactoryChangeEvent(info)));
    let delivered = delivered.expect("a change event carries its setting");
    assert_eq!(delivered.name, "screen.brightness");
    assert_eq!(delivered.value, "0.7");

    assert!(settings_change_event(Some(SettingsManagerToClient::SettingsFactorySetSuccess))
        .is_none());
    assert!(settings_change_event(None).is_none());
}

#[test]
fn listener_table_read_access() {
    let mut m: EventManager<&'static str> = EventManager::new(1, 0);
    assert_eq!(m.listener_count(3), 0);
    assert!(m.listener_at(3, 0).is_none());

    m.add_event_listener(3, "a", 10);
    m.add_event_listener(3, "b", 11);
    m.add_event_listener(9, "c", 12);

    assert_eq!(m.listener_count(3), 2);
    assert_eq!(m.listener_count(9), 1);
    assert_eq!(m.listener_at(3, 0), Some(&("a", 10)));
    assert_eq!(m.listener_at(3, 1), Some(&("b", 11)));
    assert!(m.listener_at(3, 2).is_none());
    assert_eq!(m.listener_at(9, 0), Some(&("c", 12)));
}

#[test]
fn delegate_registration_and_replacement() {
    let mut session: Session<u32, &'static str, ()> = Session::new(true);
    let mut bridge: BridgeClient<&'static str> = BridgeClient::new(6);

    let out = bridge.set_delegate(DelegateKind::Preference, "pref-host", "pref-obj", &mut session);
    assert_eq!(out.object_id, 1);
    assert!(matches!(
        out.request,
        GeckoBridgeFromClient::GeckoFeaturesSetPreferenceDelegate(ObjectRef(1))
    ));
    assert!(out.released.is_none());
    assert_eq!(session.get_object(6, 1), Some(&"pref-obj"));

    let out = bridge.set_delegate(DelegateKind::PowerManager, "power-host", "power-obj", &mut session);
    assert_eq!(out.object_id, 2, "each delegate gets a fresh object id");

    // Replacing a live delegate releases exactly the replaced object.
    let out = bridge.set_delegate(DelegateKind::Preference, "pref-host-2", "pref-obj-2", &mut session);
    assert_eq!(out.object_id, 3);
    let released = out.released.expect("the replaced delegate is released");
    assert_eq!((released.service, released.object), (6, 1));
    assert!(session.get_object(6, 1).is_none());
    assert_eq!(session.get_object(6, 3), Some(&"pref-obj-2"));
}

#[test]
fn delegate_reconnect_replay_in_fixed_order() {
    let mut session: Session<u32, &'static str, ()> = Session::new(true);
    let mut bridge: BridgeClient<&'static str> = BridgeClient::new(6);
    bridge.set_delegate(DelegateKind::PowerManager, "power", "o1", &mut session);
    bridge.set_delegate(DelegateKind::AppsService, "apps", "o2", &mut session);
    bridge.set_delegate(DelegateKind::Preference, "pref", "o3", &mut session);

    session.disconnect();
    let replay = bridge.tasks_to_reconnect();
    assert_eq!(
        replay,
        vec![
            (DelegateKind::AppsService, "apps"),
            (DelegateKind::Preference, "pref"),
            (DelegateKind::PowerManager, "power"),
        ]
    );
    // Everything is cleared: a second snapshot has nothing to replay.
    assert!(bridge.tasks_to_reconnect().is_empty());
}

#[test]
fn bridge_request_builders() {
    let bridge: BridgeClient<()> = BridgeClient::new(6);
    assert!(matches!(
        bridge.bool_pref_changed("a.b".to_string(), true),
        GeckoBridgeFromClient::GeckoFeaturesBoolPrefChanged(k, true) if k == "a.b"
    ));
    assert!(matches!(
        bridge.int_pref_changed("c".to_string(), -4),
        GeckoBridgeFromClient::GeckoFeaturesIntPrefChanged(k, -4) if k == "c"
    ));
    assert!(matches!(
        bridge.char_pref_changed("d".to_string(), "v".to_string()),
        GeckoBridgeFromClient::GeckoFeaturesCharPrefChanged(k, v) if k == "d" && v == "v"
    ));
    assert!(matches!(
        bridge.register_token("tok".to_string(), "url".to_string(), None),
        GeckoBridgeFromClient::GeckoFeaturesRegisterToken(t, u, None) if t == "tok" && u == "url"
    ));
    assert!(matches!(
        bridge.import_sim_contacts(None),
        GeckoBridgeFromClient::GeckoFeaturesImportSimContacts(None)
    ));
}

#[test]
fn settings_observers_by_name_and_key() {
    let mut session: Session<u32, &'static str, ()> = Session::new(true);
    let mut settings: SettingsClient<&'static str, &'static str> = SettingsClient::new(4);

    let (id, request) =
        settings.add_observer("audio.volume".to_string(), "obs", 7, "wrapper", &mut session);
    assert_eq!(id, 1);
    assert!(matches!(
        request,
        SettingsManagerFromClient::SettingsFactoryAddObserver(n, ObjectRef(1))
            if n == "audio.volume"
    ));
    assert_eq!(session.get_object(4, 1), Some(&"wrapper"));
    assert_eq!(settings.get_observer_id(7), Some(1));

    // A different name under the same key: the request still goes out, but
    // nothing is removed or released.
    let out = settings.remove_observer("other.setting".to_string(), 7, &mut session);
    assert!(out.request.is_some());
    assert!(out.release.is_none());

    // Matching name and key: removed, and the remote object released.
    let out = settings.remove_observer("audio.volume".to_string(), 7, &mut session);
    let release = out.release.expect("the removed observer's object is released");
    assert_eq!((release.service, release.object), (4, 1));
    assert!(session.get_object(4, 1).is_none());
}

#[test]
fn settings_listener_replay_after_disconnect() {
    let mut session: Session<u32, &'static str, ()> = Session::new(true);
    let mut settings: SettingsClient<&'static str, &'static str> = SettingsClient::new(4);

    // The first listener for the change-event type enables it with the
    // daemon, targeting the service object itself.
    let enable = settings.add_event_listener(0, "l1", 21).expect("first listener enables");
    assert_eq!((enable.service, enable.object, enable.event), (4, 0, 0));
    assert!(settings.add_event_listener(0, "l2", 22).is_none());

    settings.add_observer("a.b".to_string(), "obs", 30, "w", &mut session);

    // Reconnect replay: listeners and observers both regenerate, and the
    // tables empty.
    session.disconnect();
    let listeners = settings.get_event_listeners_to_reconnect();
    assert_eq!(listeners, vec![(0, "l1", 21), (0, "l2", 22)]);
    let observers = settings.tasks_to_reconnect();
    assert_eq!(observers.len(), 1);
    assert_eq!(observers[0].0, "a.b");
    assert_eq!((observers[0].1, observers[0].2), ("obs", 30));
    assert_eq!(settings.get_observer_id(30), None);
    // The listener table is cleared too: the next add re-enables.
    assert!(settings.add_event_listener(0, "l1", 21).is_some());
}

#[test]
fn settings_listener_edges_mirror_the_registry() {
    let mut settings: SettingsClient<(), &'static str> = SettingsClient::new(4);
    assert!(settings.add_event_listener(0, "l1", 21).is_some(), "first listener enables");
    assert!(settings.add_event_listener(0, "l2", 22).is_none());

    // Removing a non-last listener: nothing owed, the survivor stays.
    assert!(settings.remove_event_listener(0, 21).is_none());
    // Unknown key or event: the table is untouched.
    assert!(settings.remove_event_listener(0, 99).is_none());
    assert!(settings.remove_event_listener(5, 22).is_none());
    assert_eq!(settings.get_event_listeners_to_reconnect(), vec![(0, "l2", 22)]);

    // The last listener of a fresh row disables on its way out, and the
    // row is gone afterwards.
    assert!(settings.add_event_listener(0, "l3", 23).is_some());
    let disable = settings.remove_event_listener(0, 23).expect("last listener disables");
    assert_eq!((disable.service, disable.object, disable.event), (4, 0, 0));
    assert!(settings.get_event_listeners_to_reconnect().is_empty());
}

#[test]
fn settings_request_builders() {
    let settings: SettingsClient<(), ()> = SettingsClient::new(4);
    assert!(matches!(settings.clear(), SettingsManagerFromClient::SettingsFactoryClear));
    assert!(matches!(
        settings.get("a".to_string()),
        SettingsManagerFromClient::SettingsFactoryGet(n) if n == "a"
    ));
    assert!(matches!(
        settings.get_batch(vec!["a".to_string(), "b".to_string()]),
        SettingsManagerFromClient::SettingsFactoryGetBatch(v) if v.len() == 2
    ));
    let infos = vec![SettingInfo { name: "n".to_string(), value: "1".to_string() }];
    assert!(matches!(
        settings.set(infos),
        SettingsManagerFromClient::SettingsFactorySet(v) if v.len() == 1 && v[0].name == "n"
    ));
}

#[test]
fn contacts_requests_and_classification() {
    let contacts = ContactsClient::new(11);
    assert_eq!(contacts.service_id(), 11);
    assert!(matches!(
        contacts.matches(FilterByOption::Tel, FilterOption::Contains, "555".to_string()),
        ContactsManagerFromClient::ContactsFactoryMatches(
            FilterByOption::Tel,
            FilterOption::Contains,
            v,
        ) if v == "555"
    ));
    let options =
        BlockedNumberFindOptions { filter_value: "555".to_string(), filter_option: FilterOption::Equals };
    assert!(matches!(
        contacts.find_blocked_numbers(options),
        ContactsManagerFromClient::ContactsFactoryFindBlockedNumbers(o) if o.filter_value == "555"
    ));

    assert_eq!(
        classify_matches(Some(ContactsManagerToClient::ContactsFactoryMatchesSuccess(true))),
        MatchesOutcome::Resolved(true)
    );
    assert_eq!(
        classify_matches(Some(ContactsManagerToClient::ContactsFactoryMatchesError)),
        MatchesOutcome::Rejected
    );
    assert_eq!(classify_matches(None), MatchesOutcome::Ignored);

    let found = classify_find_blocked_numbers(Some(
        ContactsManagerToClient::ContactsFactoryFindBlockedNumbersSuccess(Some(vec![
            "555-1".to_string(),
        ])),
    ));
    assert!(matches!(found, FindBlockedNumbersOutcome::Resolved(Some(v)) if v == vec!["555-1"]));
    assert!(matches!(
        classify_find_blocked_numbers(None),
        FindBlockedNumbersOutcome::Ignored
    ));
}

#[test]
fn settings_observer_acknowledges_callbacks() {
    let w: SettingsObserverWrapper<&'static str> = SettingsObserverWrapper::new("obs", 4, 2);
    assert_eq!(w.get_ids(), (4, 2));

    let info = SettingInfo { name: "n".to_string(), value: "true".to_string() };
    match w.handle_request(17, Some(SettingsManagerToClient::SettingObserverCallback(info))) {
        SettingsObserverDispatch::Notify(delivered, reply) => {
            assert_eq!(delivered.name, "n");
            assert_eq!((reply.service, reply.object, reply.request_id), (4, 2, 17));
            assert!(matches!(
                reply.payload,
                SettingsManagerFromClient::SettingObserverCallbackSuccess
            ));
        }
        SettingsObserverDispatch::Ignored => {
            panic!("a callback must be delivered and acknowledged")
        }
    }
    assert!(matches!(
        w.handle_request(18, Some(SettingsManagerToClient::SettingsFactorySetSuccess)),
        SettingsObserverDispatch::Ignored
    ));
    assert!(matches!(w.handle_request(19, None), SettingsObserverDispatch::Ignored));
}

#[test]
fn settings_get_error_shape() {
    let err = GetError { name: "missing".to_string(), reason: GetErrorReason::NonExistingSetting };
    assert_eq!(err.reason, GetErrorReason::NonExistingSetting);
    assert_ne!(GetErrorReason::NonExistingSetting, GetErrorReason::UnknownError);
}
