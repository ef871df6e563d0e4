use forum_core::auth::Auth;
use forum_core::auth::AuthPage;
use forum_core::auth::Callback;
use forum_core::auth::Msg as AuthMsg;
use forum_core::auth::Props as AuthProps;
use forum_core::bucket::BucketData;
use forum_core::bucket::BucketParticipants;
use forum_core::bucket::BucketRequest;
use forum_core::bucket::Msg;
use forum_core::bucket::Props;
use forum_core::bucket::owner_response_msg;
use forum_core::bucket::participants_response_msg;
use forum_core::bucket::remove_response_msg;
use forum_core::datatypes::UserData;
use forum_core::html::Html;
use forum_core::identifiers::BucketUuid;
use forum_core::identifiers::UserUuid;
use forum_core::loadable::FetchHandle;
use forum_core::loadable::Loadable;
use forum_core::requests::UserResponse;
use forum_core::uploadable::Uploadable;

fn handle(id: u64) -> FetchHandle {
    FetchHandle { request_id: id }
}

fn loaded_props(bucket: u128) -> Props {
    Props {
        bucket_data: Loadable::Loaded(BucketData {
            id: BucketUuid(bucket),
            bucket_name: String::from("a bucket"),
        }),
    }
}

#[test]
fn mounting_with_a_loaded_bucket_dispatches_both_fetches() {
    let (pane, requests) = BucketParticipants::create(loaded_props(77), handle(1), handle(2));
    assert!(matches!(pane.users, Loadable::Loading(FetchHandle { request_id: 1 })));
    assert!(matches!(
        pane.is_user_bucket_owner,
        Loadable::Loading(FetchHandle { request_id: 2 })
    ));
    assert_eq!(pane.bucket_id, Some(BucketUuid(77)));
    assert_eq!(
        requests,
        vec![
            BucketRequest::GetUsersInBucket { bucket_id: BucketUuid(77) },
            BucketRequest::GetIsUserOwnerOfBucket { bucket_id: BucketUuid(77) },
        ]
    );
}

#[test]
fn mounting_without_a_bucket_waits() {
    let (pane, requests) = BucketParticipants::create(Props::default(), handle(1), handle(2));
    assert!(matches!(pane.users, Loadable::Unloaded));
    assert!(matches!(pane.is_user_bucket_owner, Loadable::Unloaded));
    assert_eq!(pane.bucket_id, None);
    assert!(requests.is_empty());
}

#[test]
fn update_steps_through_a_fetch() {
    let (mut pane, _) = BucketParticipants::create(loaded_props(5), handle(1), handle(2));

    // The participant list arrives.
    let users = vec![UserData {
        id: 3,
        user_name: String::from("alice"),
        display_name: String::from("Alice"),
    }];
    let (render, request) = pane.update(Msg::BucketUserDataLoaded(users), handle(3));
    assert!(render);
    assert!(request.is_none());
    match &pane.users {
        Loadable::Loaded(v) => assert_eq!(v[0].user_name, "alice"),
        _ => panic!("expected the list to be loaded"),
    }

    // The ownership answer arrives.
    let (render, request) = pane.update(Msg::SetIsUserOwner(true), handle(4));
    assert!(render);
    assert!(request.is_none());
    assert!(matches!(pane.is_user_bucket_owner, Loadable::Loaded(true)));

    // The owner removes a user; the pane schedules the removal.
    let (render, request) = pane.update(
        Msg::RemoveUserFromBucket { user_id: UserUuid(9) },
        handle(5),
    );
    assert!(render);
    assert_eq!(
        request,
        Some(BucketRequest::RemoveUserFromBucket {
            bucket_id: BucketUuid(5),
            user_id: UserUuid(9),
        })
    );
    assert!(matches!(
        pane.remove_user_action,
        Uploadable::Uploading(FetchHandle { request_id: 5 })
    ));

    // The removal response asks for the list again, and the refetch puts
    // the slot back into Loading.
    let msg = remove_response_msg(BucketUuid(5));
    let (render, request) = pane.update(msg, handle(6));
    assert!(render);
    assert_eq!(
        request,
        Some(BucketRequest::GetUsersInBucket { bucket_id: BucketUuid(5) })
    );
    assert!(matches!(pane.users, Loadable::Loading(FetchHandle { request_id: 6 })));
}

#[test]
fn response_callbacks_map_to_messages() {
    let body = vec![UserResponse {
        user_name: String::from("bob"),
        display_name: String::from("Bob"),
        id: 12,
    }];
    match participants_response_msg(true, Some(body), None) {
        Msg::BucketUserDataLoaded(v) => {
            assert_eq!(v.len(), 1);
            assert_eq!(v[0].id, 12);
            assert_eq!(v[0].user_name, "bob");
            assert_eq!(v[0].display_name, "Bob");
        }
        _ => panic!("expected the loaded message"),
    }
    match participants_response_msg(false, None, Some(String::from("timeout"))) {
        Msg::BucketUserDataFailed(Some(m)) => assert_eq!(m, "timeout"),
        _ => panic!("expected the failure message to be kept"),
    }

    // A failed ownership fetch defaults to "not owner".
    assert!(matches!(owner_response_msg(true, Some(true)), Msg::SetIsUserOwner(true)));
    assert!(matches!(owner_response_msg(false, None), Msg::SetIsUserOwner(false)));
}

/// A failed participants fetch moves the list slot from Loading to
/// Failed carrying the failure's message.
#[test]
fn failed_fetch_moves_the_slot_to_failed() {
    let (mut pane, _) = BucketParticipants::create(loaded_props(5), handle(1), handle(2));
    assert!(matches!(pane.users, Loadable::Loading(_)));
    let msg = participants_response_msg(false, None, Some(String::from("timeout")));
    let (render, request) = pane.update(msg, handle(3));
    assert!(render);
    assert!(request.is_none());
    match &pane.users {
        Loadable::Failed(Some(m)) => assert_eq!(m, "timeout"),
        other => panic!("expected a failed slot, got {:?}", other),
    }
    // The removal slot is untouched by the failure.
    assert!(matches!(pane.remove_user_action, Uploadable::NotUploaded));
}

#[test]
fn bucket_view_shows_rows_with_buttons_only_for_the_owner() {
    let (mut pane, _) = BucketParticipants::create(loaded_props(5), handle(1), handle(2));
    let users = vec![
        UserData { id: 1, user_name: String::from("a"), display_name: String::from("A") },
        UserData { id: 2, user_name: String::from("b"), display_name: String::from("B") },
    ];
    pane.update(Msg::BucketUserDataLoaded(users), handle(3));
    pane.update(Msg::SetIsUserOwner(true), handle(4));
    let rendered = pane.view();
    let rows = match rendered {
        Html::Panel { class, children } => {
            assert_eq!(class, "bucket-action-pane");
            assert_eq!(children.len(), 1);
            match children.into_iter().next().unwrap() {
                Html::Panel { class, children } => {
                    assert_eq!(class, "");
                    children
                }
                other => panic!("expected the list panel, got {:?}", other),
            }
        }
        other => panic!("expected the action pane, got {:?}", other),
    };
    assert_eq!(rows.len(), 2);
    match &rows[0] {
        Html::Panel { children, .. } => {
            match &children[0] {
                Html::Panel { children: name, .. } => {
                    assert_eq!(name[0], Html::Text(String::from("a")))
                }
                other => panic!("expected the name panel, got {:?}", other),
            }
            match &children[1] {
                Html::Panel { children: button, .. } => {
                    assert_eq!(button[0], Html::Button { label: String::from("Remove") })
                }
                other => panic!("expected the button panel, got {:?}", other),
            }
        }
        other => panic!("expected a row, got {:?}", other),
    }
}

#[test]
fn auth_pane_switches_children_and_hands_back_the_callback() {
    let mut auth = Auth::create(AuthProps {
        child: AuthPage::Login,
        callback: Some(Callback { callback_id: 8 }),
    });

    // Rendering shows the login page.
    match auth.view() {
        Html::Panel { class, children } => {
            assert_eq!(class, "auth-page");
            assert_eq!(children[0], Html::Text(String::from("Login")));
        }
        other => panic!("expected the auth pane, got {:?}", other),
    }

    // Switching the child re-renders and runs nothing.
    let (render, emitted) = auth.update(AuthMsg::SetChild(AuthPage::Create));
    assert!(render);
    assert_eq!(emitted, None);
    match auth.view() {
        Html::Panel { children, .. } => {
            assert_eq!(children[0], Html::Text(String::from("Create Account")));
        }
        other => panic!("expected the auth pane, got {:?}", other),
    }

    // A completed login does not re-render and hands the callback back.
    let (render, emitted) = auth.update(AuthMsg::Callback);
    assert!(!render);
    assert_eq!(emitted, Some(Callback { callback_id: 8 }));

    // Fresh properties replace both fields.
    let changed = auth.change(AuthProps::default());
    assert!(changed);
    assert_eq!(auth.child, AuthPage::Login);
    assert_eq!(auth.callback, None);
}
