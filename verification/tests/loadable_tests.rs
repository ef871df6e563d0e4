use forum_core::html::Html;
use forum_core::html::LoadingType;
use forum_core::html::empty;
use forum_core::loadable::FetchHandle;
use forum_core::loadable::Loadable;
use forum_core::uploadable::Uploadable;

fn render_number(n: &u32) -> Html {
    Html::Text(n.to_string())
}

/// The slot starts Unloaded, moves to Loading on dispatch, to Loaded on
/// success, to Failed("timeout") on that failure, and a Failed(None)
/// renders the literal fallback text "Request Failed".
#[test]
fn loadable_lifecycle_scenario() {
    let mut slot: Loadable<u32> = Loadable::default();
    assert!(matches!(slot, Loadable::Unloaded));

    slot.set_ft(FetchHandle { request_id: 1 });
    assert!(matches!(slot, Loadable::Loading(FetchHandle { request_id: 1 })));

    slot = Loadable::Loaded(42);
    assert!(matches!(slot, Loadable::Loaded(42)));

    slot = Loadable::Failed(Some(String::from("timeout")));
    match &slot {
        Loadable::Failed(Some(m)) => assert_eq!(m, "timeout"),
        _ => panic!("expected a failed slot"),
    }

    let failed_render = Loadable::<u32>::Failed(None).default_view(render_number);
    match failed_render {
        Html::Panel { class, children } => {
            assert_eq!(class, "flexbox-center");
            assert_eq!(children.len(), 1);
            assert_eq!(children[0], Html::Text(String::from("Request Failed")));
        }
        other => panic!("expected a centered panel, got {:?}", other),
    }
}

#[test]
fn failed_with_message_renders_the_message() {
    let failed_render = Loadable::<u32>::Failed(Some(String::from("timeout"))).default_view(render_number);
    match failed_render {
        Html::Panel { children, .. } => {
            assert_eq!(children[0], Html::Text(String::from("timeout")));
        }
        other => panic!("expected a centered panel, got {:?}", other),
    }
}

#[test]
fn views_render_each_state() {
    assert_eq!(Loadable::<u32>::Unloaded.default_view(render_number), Html::Empty);
    assert_eq!(
        Loadable::<u32>::Loading(FetchHandle { request_id: 9 }).default_view(render_number),
        Html::LoadingIcon { diameter: 100 }
    );
    assert_eq!(
        Loadable::<u32>::Loading(FetchHandle { request_id: 9 }).small_view(render_number),
        Html::Empty
    );
    assert_eq!(Loadable::Loaded(7).default_view(render_number), Html::Text(String::from("7")));
}

/// Cloning a Loading slot degrades it to Unloaded: the in-flight handle
/// cannot be cloned.
#[test]
fn cloning_loading_degrades_to_unloaded() {
    let slot: Loadable<u32> = Loadable::Loading(FetchHandle { request_id: 3 });
    assert!(matches!(slot.clone(), Loadable::Unloaded));

    let loaded: Loadable<u32> = Loadable::Loaded(5);
    assert!(matches!(loaded.clone(), Loadable::Loaded(5)));

    let failed: Loadable<u32> = Loadable::Failed(Some(String::from("nope")));
    match failed.clone() {
        Loadable::Failed(Some(m)) => assert_eq!(m, "nope"),
        _ => panic!("expected the failure to survive the clone"),
    }

    let unloaded: Loadable<u32> = Loadable::Unloaded;
    assert!(matches!(unloaded.clone(), Loadable::Unloaded));
}

#[test]
fn empty_node_and_loading_placeholders() {
    assert_eq!(empty(), Html::Empty);
    assert_eq!(
        LoadingType::Fidget { diameter: 100 }.view(),
        Html::LoadingIcon { diameter: 100 }
    );
    assert_eq!(LoadingType::Empty.view(), Html::Empty);
}

#[test]
fn uploadable_lifecycle() {
    let mut upload: Uploadable<()> = Uploadable::default();
    assert!(matches!(upload, Uploadable::NotUploaded));
    upload.set_ft(FetchHandle { request_id: 4 });
    assert!(matches!(upload, Uploadable::Uploading(FetchHandle { request_id: 4 })));
}
