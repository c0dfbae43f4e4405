use mapfetch::error::FetchError;
use mapfetch::model::SimpleEventEdition;
use mapfetch::resolve::default_event_handle;
use mapfetch::resolve::resolve_plan;
use mapfetch::resolve::select_latest;
use mapfetch::resolve::ResolvePlan;

#[test]
fn direct_when_both_supplied() {
    let r = resolve_plan(Some("spring2023".to_owned()), Some(2));
    match r {
        Ok(ResolvePlan::Direct { handle, edition }) => {
            assert_eq!(handle.as_str(), "spring2023");
            assert_eq!(edition, 2);
        }
        _ => panic!("both arguments supplied must be used directly"),
    }
}

#[test]
fn query_latest_when_handle_only() {
    let r = resolve_plan(Some("campaign".to_owned()), None);
    match r {
        Ok(ResolvePlan::QueryLatest { handle }) => assert_eq!(handle.as_str(), "campaign"),
        _ => panic!("a lone handle must query its latest edition"),
    }
}

#[test]
fn default_handle_when_nothing_supplied() {
    assert_eq!(default_event_handle().as_str(), "campaign");
    let r = resolve_plan(None, None);
    match r {
        Ok(ResolvePlan::QueryLatest { handle }) => assert_eq!(handle.as_str(), "campaign"),
        _ => panic!("no arguments must query the default handle's latest edition"),
    }
}

#[test]
fn usage_error_for_edition_without_handle() {
    let r = resolve_plan(None, Some(3));
    assert!(matches!(r, Err(FetchError::Usage)));
    let r2 = resolve_plan(None, Some(0));
    assert!(matches!(r2, Err(FetchError::Usage)));
}

#[test]
fn select_latest_picks_maximum_id() {
    let editions = vec![
        SimpleEventEdition { id: 2, name: "second".to_owned() },
        SimpleEventEdition { id: 5, name: "fifth".to_owned() },
        SimpleEventEdition { id: 3, name: "third".to_owned() },
    ];
    let best = select_latest(editions).unwrap();
    assert_eq!(best.id, 5);
    assert_eq!(best.name.as_str(), "fifth");
}

#[test]
fn select_latest_breaks_ties_deterministically() {
    let editions = vec![
        SimpleEventEdition { id: 7, name: "first of two".to_owned() },
        SimpleEventEdition { id: 7, name: "second of two".to_owned() },
        SimpleEventEdition { id: 1, name: "older".to_owned() },
    ];
    let best = select_latest(editions).unwrap();
    assert_eq!(best.id, 7);
    assert_eq!(best.name.as_str(), "second of two");
}

#[test]
fn select_latest_fails_on_empty_list() {
    let r = select_latest(Vec::new());
    assert!(matches!(r, Err(FetchError::EmptyResult)));
}

#[test]
fn error_descriptions() {
    assert_eq!(
        FetchError::Usage.describe().as_str(),
        "cannot provide an edition id without an event handle"
    );
    assert_eq!(FetchError::EmptyResult.describe().as_str(), "the event has no edition");
    assert_eq!(
        FetchError::Transport("send failed".to_owned()).describe().as_str(),
        "transport failure: send failed"
    );
    assert_eq!(
        FetchError::Deserialize("bad json".to_owned()).describe().as_str(),
        "malformed response: bad json"
    );
    assert_eq!(
        FetchError::Io("cannot create dir".to_owned()).describe().as_str(),
        "i/o failure: cannot create dir"
    );
}
