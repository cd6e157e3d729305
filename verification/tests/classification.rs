use portal::access::{authorize, is_privileged, Gate, Identity, PermissionDenied, SUPERUSER_LEVEL};
use portal::request::{
    classify_device, classify_device_or_default, classify_mode, is_desctop, ClassificationError,
    DeviceClass, RequestMode,
};
use portal::response::{
    denial_body, found_or_failure, list_or_empty, page_or_empty, status_code, RequestFailure,
};
use portal::stats::PersistenceError;
use portal::variant::{fragment_variant, resolve_view, select_variant, RequestContext, ViewVariant};

fn principal(id: i32, level: i16) -> Option<Identity> {
    Some(Identity::new(id, level))
}

#[test]
fn user_agent_with_marker_is_mobile() {
    assert_eq!(classify_device(Some("Mozilla/5.0 Mobile")), Ok(DeviceClass::Mobile));
    assert_eq!(classify_device(Some("Mobile")), Ok(DeviceClass::Mobile));
    assert_eq!(
        classify_device(Some("Mozilla/5.0 (iPhone) AppleWebKit Mobile/15E148 Safari")),
        Ok(DeviceClass::Mobile)
    );
    assert_eq!(classify_device(Some("xxMobilexx")), Ok(DeviceClass::Mobile));
}

#[test]
fn user_agent_without_marker_is_desktop() {
    assert_eq!(
        classify_device(Some("Mozilla/5.0 (X11; Linux x86_64) Firefox/120.0")),
        Ok(DeviceClass::Desktop)
    );
    assert_eq!(classify_device(Some("")), Ok(DeviceClass::Desktop));
    assert_eq!(classify_device(Some("Mobil")), Ok(DeviceClass::Desktop));
    assert_eq!(classify_device(Some("Mobi le")), Ok(DeviceClass::Desktop));
}

#[test]
fn marker_is_case_sensitive() {
    assert_eq!(classify_device(Some("mobile")), Ok(DeviceClass::Desktop));
    assert_eq!(classify_device(Some("MOBILE")), Ok(DeviceClass::Desktop));
    assert_eq!(classify_device(Some("mOBILE Mobile")), Ok(DeviceClass::Mobile));
}

#[test]
fn marker_among_other_scripts() {
    assert_eq!(classify_device(Some("браузер Mobile версия")), Ok(DeviceClass::Mobile));
    assert_eq!(classify_device(Some("браузер мобильный")), Ok(DeviceClass::Desktop));
}

#[test]
fn absent_user_agent_is_an_error() {
    assert_eq!(classify_device(None), Err(ClassificationError::MissingUserAgent));
    assert_eq!(is_desctop(None), Err(ClassificationError::MissingUserAgent));
}

#[test]
fn absent_user_agent_is_served_as_desktop() {
    assert_eq!(classify_device_or_default(None), DeviceClass::Desktop);
    assert_eq!(classify_device_or_default(Some("a Mobile b")), DeviceClass::Mobile);
    assert_eq!(classify_device_or_default(Some("a b")), DeviceClass::Desktop);
}

#[test]
fn is_desctop_answers_for_the_device() {
    assert_eq!(is_desctop(Some("Mozilla/5.0 Mobile")), Ok(false));
    assert_eq!(is_desctop(Some("Mozilla/5.0")), Ok(true));
}

#[test]
fn mode_follows_the_flag() {
    assert_eq!(classify_mode(None), RequestMode::FullLoad);
    assert_eq!(classify_mode(Some(0)), RequestMode::FullLoad);
    assert_eq!(classify_mode(Some(1)), RequestMode::Fragment);
    assert_eq!(classify_mode(Some(2)), RequestMode::Fragment);
    assert_eq!(classify_mode(Some(-1)), RequestMode::Fragment);
    assert_eq!(classify_mode(Some(i32::MIN)), RequestMode::Fragment);
}

#[test]
fn transition_table_for_fragments() {
    let signed = principal(4, 10);
    let table = [
        (DeviceClass::Desktop, signed, ViewVariant::AuthenticatedDesktopFragment),
        (DeviceClass::Mobile, signed, ViewVariant::AuthenticatedMobileFragment),
        (DeviceClass::Desktop, None, ViewVariant::AnonymousDesktopFragment),
        (DeviceClass::Mobile, None, ViewVariant::AnonymousMobileFragment),
    ];
    for (device, who, expected) in table {
        let ctx = RequestContext::new(device, RequestMode::Fragment, who);
        assert_eq!(select_variant(&ctx), expected);
        assert_eq!(fragment_variant(device, who.is_some()), expected);
    }
}

#[test]
fn full_load_gets_the_shell() {
    for device in [DeviceClass::Desktop, DeviceClass::Mobile] {
        for who in [None, principal(1, 0), principal(2, 60)] {
            let ctx = RequestContext::new(device, RequestMode::FullLoad, who);
            assert_eq!(select_variant(&ctx), ViewVariant::FullShellVariant);
        }
    }
}

#[test]
fn selection_is_repeatable_and_blind_to_who_signed_in() {
    for device in [DeviceClass::Desktop, DeviceClass::Mobile] {
        for mode in [RequestMode::FullLoad, RequestMode::Fragment] {
            let a = RequestContext::new(device, mode, principal(1, 0));
            let b = RequestContext::new(device, mode, principal(99, 60));
            assert_eq!(select_variant(&a), select_variant(&a));
            assert_eq!(select_variant(&a), select_variant(&b));
        }
    }
}

#[test]
fn superuser_level_is_sixty() {
    assert_eq!(SUPERUSER_LEVEL, 60);
    assert!(Identity::new(1, 60).is_superuser());
    assert!(Identity::new(1, 61).is_superuser());
    assert!(!Identity::new(1, 59).is_superuser());
    assert!(!Identity::new(1, 0).is_superuser());
    assert!(!Identity::new(1, -1).is_superuser());
}

#[test]
fn superuser_passes_every_gate() {
    let root = principal(1, 60);
    for gate in [
        Gate::Public,
        Gate::Superuser,
        Gate::OwnerOrSuperuser { owner_id: 1 },
        Gate::OwnerOrSuperuser { owner_id: 2 },
        Gate::OwnerOrSuperuser { owner_id: i32::MIN },
    ] {
        assert_eq!(authorize(gate, &root), Ok(()));
    }
}

#[test]
fn lower_tier_stranger_is_denied() {
    let visitor = principal(5, 10);
    assert_eq!(authorize(Gate::Superuser, &visitor), Err(PermissionDenied));
    assert_eq!(authorize(Gate::OwnerOrSuperuser { owner_id: 6 }, &visitor), Err(PermissionDenied));
    assert_eq!(authorize(Gate::Superuser, &principal(5, 59)), Err(PermissionDenied));
}

#[test]
fn owner_passes_the_gate_of_what_it_owns() {
    let owner = principal(5, 10);
    assert_eq!(authorize(Gate::OwnerOrSuperuser { owner_id: 5 }, &owner), Ok(()));
    assert_eq!(authorize(Gate::Public, &owner), Ok(()));
}

#[test]
fn anonymous_passes_the_public_gate_only() {
    assert_eq!(authorize(Gate::Public, &None), Ok(()));
    assert_eq!(authorize(Gate::Superuser, &None), Err(PermissionDenied));
    assert_eq!(authorize(Gate::OwnerOrSuperuser { owner_id: 0 }, &None), Err(PermissionDenied));
}

#[test]
fn privileged_content_is_for_superusers() {
    assert!(is_privileged(&principal(1, 60)));
    assert!(!is_privileged(&principal(1, 59)));
    assert!(!is_privileged(&None));
}

#[test]
fn gate_stands_before_the_fragment_not_before_the_shell() {
    let visitor = principal(5, 10);
    let gate = Gate::OwnerOrSuperuser { owner_id: 6 };
    let shell = RequestContext::new(DeviceClass::Mobile, RequestMode::FullLoad, visitor);
    assert_eq!(resolve_view(&shell, gate), Ok(ViewVariant::FullShellVariant));
    let fragment = RequestContext::new(DeviceClass::Mobile, RequestMode::Fragment, visitor);
    assert_eq!(resolve_view(&fragment, gate), Err(PermissionDenied));
    let owner = RequestContext::new(DeviceClass::Mobile, RequestMode::Fragment, principal(6, 10));
    assert_eq!(resolve_view(&owner, gate), Ok(ViewVariant::AuthenticatedMobileFragment));
    let anonymous = RequestContext::new(DeviceClass::Desktop, RequestMode::Fragment, None);
    assert_eq!(resolve_view(&anonymous, Gate::Public), Ok(ViewVariant::AnonymousDesktopFragment));
    assert_eq!(resolve_view(&anonymous, Gate::Superuser), Err(PermissionDenied));
}

#[test]
fn denial_is_the_same_for_every_reason() {
    let no_identity = RequestContext::new(DeviceClass::Desktop, RequestMode::Fragment, None);
    let low_tier = RequestContext::new(DeviceClass::Mobile, RequestMode::Fragment, principal(3, 1));
    let a = resolve_view(&no_identity, Gate::Superuser);
    let b = resolve_view(&low_tier, Gate::OwnerOrSuperuser { owner_id: 4 });
    assert!(a.is_err());
    assert_eq!(a, b);
}

#[test]
fn scenario_no_user_agent_fragment_no_session() {
    assert_eq!(classify_device(None), Err(ClassificationError::MissingUserAgent));
    let ctx = RequestContext::resolve(None, Some(1), None);
    assert_eq!(ctx.device_class, DeviceClass::Desktop);
    assert_eq!(ctx.mode, RequestMode::Fragment);
    assert_eq!(ctx.principal, None);
    assert!(!ctx.is_signed_in());
    assert_eq!(select_variant(&ctx), ViewVariant::AnonymousDesktopFragment);
}

#[test]
fn scenario_mobile_full_load_signed_in() {
    let ctx = RequestContext::resolve(Some("Mozilla/5.0 Mobile"), None, principal(12, 10));
    assert_eq!(ctx.device_class, DeviceClass::Mobile);
    assert_eq!(ctx.mode, RequestMode::FullLoad);
    assert!(ctx.is_signed_in());
    assert_eq!(select_variant(&ctx), ViewVariant::FullShellVariant);
    let zero_flag = RequestContext::resolve(Some("Mozilla/5.0 Mobile"), Some(0), principal(12, 10));
    assert_eq!(select_variant(&zero_flag), ViewVariant::FullShellVariant);
}

#[test]
fn failures_map_to_statuses() {
    assert_eq!(status_code(RequestFailure::Denied(PermissionDenied)), 403);
    assert_eq!(status_code(RequestFailure::Persistence(PersistenceError::QueryFailed)), 500);
    assert_eq!(status_code(RequestFailure::Persistence(PersistenceError::CounterExhausted)), 500);
    assert_eq!(status_code(RequestFailure::Render), 500);
    assert_eq!(denial_body(), "Permission Denied");
}

#[test]
fn lookups_tell_not_found_from_failure() {
    assert_eq!(found_or_failure(Ok(Some(7))), Ok(7));
    assert_eq!(found_or_failure::<i32>(Ok(None)), Err(RequestFailure::NotFound));
    assert_eq!(
        found_or_failure::<i32>(Err(PersistenceError::QueryFailed)),
        Err(RequestFailure::Persistence(PersistenceError::QueryFailed))
    );
    assert_eq!(status_code(RequestFailure::NotFound), 404);
    assert_eq!(list_or_empty(Ok(vec![1, 2])), vec![1, 2]);
    assert_eq!(list_or_empty::<i32>(Err(PersistenceError::QueryFailed)), Vec::<i32>::new());
    assert_eq!(page_or_empty(Ok((vec![1, 2], 3))), (vec![1, 2], 3));
    assert_eq!(page_or_empty::<i32>(Err(PersistenceError::QueryFailed)), (Vec::<i32>::new(), 0));
}

#[test]
fn failures_come_from_their_causes() {
    assert_eq!(RequestFailure::from(PermissionDenied), RequestFailure::Denied(PermissionDenied));
    assert_eq!(
        RequestFailure::from(PersistenceError::CounterExhausted),
        RequestFailure::Persistence(PersistenceError::CounterExhausted)
    );
}
