//! The bucket-participants pane: lists the users in a bucket, lets the
//! bucket's owner remove one, and keeps a slot saying whether the
//! viewing user owns the bucket.
//!
//! The component is a reducer: each message yields a state change and
//! the network requests to schedule; the runtime performs each request
//! and feeds the response back as a message.
use vstd::prelude::*;
use vstd::string::StringExecFns;

use crate::datatypes::UserData;
use crate::html::Html;
use crate::identifiers::BucketUuid;
use crate::identifiers::UserUuid;
use crate::loadable::FetchHandle;
use crate::loadable::Loadable;
use crate::loadable::is_loadable_view;
use crate::requests::UserResponse;
use crate::uploadable::Uploadable;

verus! {

/// A bucket as the frontend holds it.
#[derive(Debug, Clone)]
pub struct BucketData {
    /// The bucket's key.
    pub id: BucketUuid,
    /// The displayed name of the bucket.
    pub bucket_name: String,
}

/// What the parent hands the pane.
#[derive(Debug, Default)]
pub struct Props {
    /// The bucket whose participants the pane shows, once it is loaded.
    pub bucket_data: Loadable<BucketData>,
}

/// The messages the pane consumes.
#[derive(Debug)]
pub enum Msg {
    /// Fetch the bucket's participant list again.
    GetBucketUserData {
        /// The bucket to fetch for.
        bucket_id: BucketUuid,
    },
    /// The participant list arrived.
    BucketUserDataLoaded(Vec<UserData>),
    /// The participant list could not be fetched; carries the failure
    /// message when one was given.
    BucketUserDataFailed(Option<String>),
    /// Whether the viewing user owns the bucket arrived.
    SetIsUserOwner(bool),
    /// The owner asks to remove a user from the bucket.
    RemoveUserFromBucket {
        /// The user to remove.
        user_id: UserUuid,
    },
}

/// The network requests the pane schedules; the runtime performs each
/// and feeds the response back as a message.
#[derive(Clone, Copy, Debug, PartialEq, Eq, Structural)]
pub enum BucketRequest {
    /// Fetch the users in the bucket.
    GetUsersInBucket {
        /// The bucket to fetch for.
        bucket_id: BucketUuid,
    },
    /// Fetch whether the viewing user owns the bucket.
    GetIsUserOwnerOfBucket {
        /// The bucket to ask about.
        bucket_id: BucketUuid,
    },
    /// Remove a user from the bucket.
    RemoveUserFromBucket {
        /// The bucket to remove from.
        bucket_id: BucketUuid,
        /// The user to remove.
        user_id: UserUuid,
    },
}

/// The pane's state.
#[derive(Debug)]
pub struct BucketParticipants {
    /// The bucket's participants, as last fetched.
    pub users: Loadable<Vec<UserData>>,
    /// Whether the viewing user owns the bucket, as last fetched.
    pub is_user_bucket_owner: Loadable<bool>,
    /// The bucket shown, once known.
    pub bucket_id: Option<BucketUuid>,
    /// The in-flight removal, if one is running.
    pub remove_user_action: Uploadable<()>,
}

impl Default for BucketParticipants {
    /// A fresh pane has loaded nothing and knows no bucket.
    fn default() -> (r: Self)
        ensures
            r.users matches Loadable::Unloaded,
            r.is_user_bucket_owner matches Loadable::Unloaded,
            r.bucket_id is None,
            r.remove_user_action matches Uploadable::NotUploaded,
    {
        BucketParticipants {
            users: Loadable::default(),
            is_user_bucket_owner: Loadable::default(),
            bucket_id: None,
            remove_user_action: Uploadable::default(),
        }
    }
}

/// The frontend shape of one wire user.
pub open spec fn user_data_of(t: UserResponse) -> UserData {
    UserData { id: t.id, user_name: t.user_name, display_name: t.display_name }
}

/// What the participants response callback feeds back: the converted
/// list on success, the failure with its message otherwise. A
/// successful response always carries a body.
pub fn participants_response_msg(
    success: bool,
    data: Option<Vec<UserResponse>>,
    error: Option<String>,
) -> (m: Msg)
    requires
        success ==> data is Some,
    ensures
        success ==> (m matches Msg::BucketUserDataLoaded(v) && {
            let resp = data.unwrap();
            &&& v@.len() == resp@.len()
            &&& forall|i: int| 0 <= i < resp@.len() ==> v@[i] == user_data_of(#[trigger] resp@[i])
        }),
        !success ==> m == Msg::BucketUserDataFailed(error),
{
    if success {
        match data {
            Some(resp) => {
                let ghost g = resp@;
                let mut out: Vec<UserData> = Vec::new();
                let mut rest = resp;
                let mut i: usize = 0;
                let n = rest.len();
                while i < n
                    invariant
                        i <= n,
                        n == g.len(),
                        n == rest@.len() + i,
                        rest@ == g.skip(i as int),
                        out@.len() == i,
                        forall|j: int| 0 <= j < i ==> out@[j] == user_data_of(#[trigger] g[j]),
                    decreases n - i,
                {
                    let u = rest.remove(0);
                    proof {
                        assert(g.skip(i as int)[0] == g[i as int]);
                        assert(g.skip(i as int).remove(0) =~= g.skip(i + 1));
                    }
                    out.push(UserData::from(u));
                    i += 1;
                }
                Msg::BucketUserDataLoaded(out)
            },
            None => Msg::BucketUserDataFailed(error),
        }
    } else {
        Msg::BucketUserDataFailed(error)
    }
}

/// What the ownership response callback feeds back: the answer on
/// success; a failed fetch defaults to "not owner" rather than failing
/// the whole view. A successful response always carries a body.
pub fn owner_response_msg(success: bool, data: Option<bool>) -> (m: Msg)
    requires
        success ==> data is Some,
    ensures
        success ==> m == Msg::SetIsUserOwner(data.unwrap()),
        !success ==> m == Msg::SetIsUserOwner(false),
{
    if success {
        match data {
            Some(b) => Msg::SetIsUserOwner(b),
            None => Msg::SetIsUserOwner(false),
        }
    } else {
        Msg::SetIsUserOwner(false)
    }
}

/// What the removal response callback feeds back: fetch the whole list
/// again, whatever the response said.
pub fn remove_response_msg(bucket_id: BucketUuid) -> (m: Msg)
    ensures
        m matches Msg::GetBucketUserData { bucket_id: b } && b == bucket_id,
{
    Msg::GetBucketUserData { bucket_id }
}

impl BucketParticipants {
    /// Dispatches the participants fetch: the slot goes to `Loading`
    /// under the given handle, and the request is returned for the
    /// runtime to perform.
    pub fn get_participants_in_bucket(
        bucket_id: BucketUuid,
        participants: &mut Loadable<Vec<UserData>>,
        handle: FetchHandle,
    ) -> (r: BucketRequest)
        ensures
            *final(participants) matches Loadable::Loading(h) && h.request_id
                == handle.request_id,
            r == (BucketRequest::GetUsersInBucket { bucket_id }),
    {
        participants.set_ft(handle);
        BucketRequest::GetUsersInBucket { bucket_id }
    }

    /// Dispatches the ownership fetch, like the participants fetch.
    pub fn determine_if_user_is_owner(
        bucket_id: BucketUuid,
        is_owner: &mut Loadable<bool>,
        handle: FetchHandle,
    ) -> (r: BucketRequest)
        ensures
            *final(is_owner) matches Loadable::Loading(h) && h.request_id == handle.request_id,
            r == (BucketRequest::GetIsUserOwnerOfBucket { bucket_id }),
    {
        is_owner.set_ft(handle);
        BucketRequest::GetIsUserOwnerOfBucket { bucket_id }
    }

    /// Dispatches a removal: the upload slot goes to `Uploading` under
    /// the given handle, and the request is returned for the runtime to
    /// perform.
    pub fn remove_user_from_bucket(
        bucket_id: BucketUuid,
        user_id: UserUuid,
        remove_user_action: &mut Uploadable<()>,
        handle: FetchHandle,
    ) -> (r: BucketRequest)
        ensures
            *final(remove_user_action) matches Uploadable::Uploading(h) && h.request_id
                == handle.request_id,
            r == (BucketRequest::RemoveUserFromBucket { bucket_id, user_id }),
    {
        remove_user_action.set_ft(handle);
        BucketRequest::RemoveUserFromBucket { bucket_id, user_id }
    }

    /// Mounts the pane. When the parent already loaded the bucket, both
    /// fetches are dispatched at once; otherwise the pane waits.
    pub fn create(props: Props, h1: FetchHandle, h2: FetchHandle) -> (r: (
        BucketParticipants,
        Vec<BucketRequest>,
    ))
        ensures
            props.bucket_data matches Loadable::Loaded(bd) ==> {
                &&& r.0.users matches Loadable::Loading(h) && h.request_id == h1.request_id
                &&& r.0.is_user_bucket_owner matches Loadable::Loading(h) && h.request_id
                    == h2.request_id
                &&& r.0.bucket_id == Some(bd.id)
                &&& r.0.remove_user_action matches Uploadable::NotUploaded
                &&& r.1@ == seq![
                    (BucketRequest::GetUsersInBucket { bucket_id: bd.id }),
                    (BucketRequest::GetIsUserOwnerOfBucket { bucket_id: bd.id }),
                ]
            },
            !(props.bucket_data matches Loadable::Loaded(_)) ==> {
                &&& r.0.users matches Loadable::Unloaded
                &&& r.0.is_user_bucket_owner matches Loadable::Unloaded
                &&& r.0.bucket_id is None
                &&& r.0.remove_user_action matches Uploadable::NotUploaded
                &&& r.1@.len() == 0
            },
    {
        let mut participants = BucketParticipants::default();
        let mut requests: Vec<BucketRequest> = Vec::new();
        match props.bucket_data {
            Loadable::Loaded(bucket_data) => {
                let q1 = Self::get_participants_in_bucket(
                    bucket_data.id,
                    &mut participants.users,
                    h1,
                );
                let q2 = Self::determine_if_user_is_owner(
                    bucket_data.id,
                    &mut participants.is_user_bucket_owner,
                    h2,
                );
                participants.bucket_id = Some(bucket_data.id);
                requests.push(q1);
                requests.push(q2);
                proof {
                    assert(requests@ =~= seq![
                        (BucketRequest::GetUsersInBucket { bucket_id: bucket_data.id }),
                        (BucketRequest::GetIsUserOwnerOfBucket { bucket_id: bucket_data.id }),
                    ]);
                }
            },
            _ => {},
        }
        (participants, requests)
    }

    /// Steps the pane on one message. The pane always renders again; the
    /// returned request, if any, is for the runtime to perform under the
    /// given handle. A failed participants fetch moves the list slot to
    /// `Failed` with the failure's message.
    pub fn update(&mut self, msg: Msg, handle: FetchHandle) -> (r: (bool, Option<BucketRequest>))
        ensures
            r.0 == true,
            msg matches Msg::GetBucketUserData { bucket_id } ==> {
                &&& final(self).users matches Loadable::Loading(h) && h.request_id
                    == handle.request_id
                &&& final(self).is_user_bucket_owner == old(self).is_user_bucket_owner
                &&& final(self).bucket_id == old(self).bucket_id
                &&& final(self).remove_user_action == old(self).remove_user_action
                &&& r.1 == Some(BucketRequest::GetUsersInBucket { bucket_id })
            },
            msg matches Msg::BucketUserDataLoaded(data) ==> {
                &&& final(self).users == Loadable::Loaded(data)
                &&& final(self).is_user_bucket_owner == old(self).is_user_bucket_owner
                &&& final(self).bucket_id == old(self).bucket_id
                &&& final(self).remove_user_action == old(self).remove_user_action
                &&& r.1 is None
            },
            msg matches Msg::BucketUserDataFailed(err) ==> {
                &&& final(self).users == Loadable::<Vec<UserData>>::Failed(err)
                &&& final(self).is_user_bucket_owner == old(self).is_user_bucket_owner
                &&& final(self).bucket_id == old(self).bucket_id
                &&& final(self).remove_user_action == old(self).remove_user_action
                &&& r.1 is None
            },
            msg matches Msg::SetIsUserOwner(b) ==> {
                &&& final(self).is_user_bucket_owner == Loadable::<bool>::Loaded(b)
                &&& final(self).users == old(self).users
                &&& final(self).bucket_id == old(self).bucket_id
                &&& final(self).remove_user_action == old(self).remove_user_action
                &&& r.1 is None
            },
            msg matches Msg::RemoveUserFromBucket { user_id } ==> {
                &&& final(self).users == old(self).users
                &&& final(self).is_user_bucket_owner == old(self).is_user_bucket_owner
                &&& final(self).bucket_id == old(self).bucket_id
                &&& (old(self).bucket_id matches Some(b) ==> (final(self).remove_user_action
                    matches Uploadable::Uploading(h) && h.request_id == handle.request_id && r.1
                    == Some(BucketRequest::RemoveUserFromBucket { bucket_id: b, user_id })))
                &&& (old(self).bucket_id is None ==> *final(self) == *old(self) && r.1 is None)
            },
    {
        match msg {
            Msg::GetBucketUserData { bucket_id } => {
                let q = Self::get_participants_in_bucket(bucket_id, &mut self.users, handle);
                (true, Some(q))
            },
            Msg::BucketUserDataLoaded(bucket_user_data) => {
                self.users = Loadable::Loaded(bucket_user_data);
                (true, None)
            },
            Msg::BucketUserDataFailed(err) => {
                self.users = Loadable::Failed(err);
                (true, None)
            },
            Msg::SetIsUserOwner(is_owner) => {
                self.is_user_bucket_owner = Loadable::Loaded(is_owner);
                (true, None)
            },
            Msg::RemoveUserFromBucket { user_id } => {
                match self.bucket_id {
                    Some(bucket_id) => {
                        let q = Self::remove_user_from_bucket(
                            bucket_id,
                            user_id,
                            &mut self.remove_user_action,
                            handle,
                        );
                        (true, Some(q))
                    },
                    None => (true, None),
                }
            },
        }
    }

    /// Takes fresh properties from the parent: with a loaded bucket both
    /// fetches are dispatched again and the pane renders; otherwise
    /// nothing changes and nothing renders.
    pub fn change(&mut self, props: Props, h1: FetchHandle, h2: FetchHandle) -> (r: (
        bool,
        Vec<BucketRequest>,
    ))
        ensures
            props.bucket_data matches Loadable::Loaded(bd) ==> {
                &&& r.0 == true
                &&& final(self).users matches Loadable::Loading(h) && h.request_id
                    == h1.request_id
                &&& final(self).is_user_bucket_owner matches Loadable::Loading(h)
                    && h.request_id == h2.request_id
                &&& final(self).bucket_id == Some(bd.id)
                &&& r.1@ == seq![
                    (BucketRequest::GetUsersInBucket { bucket_id: bd.id }),
                    (BucketRequest::GetIsUserOwnerOfBucket { bucket_id: bd.id }),
                ]
            },
            !(props.bucket_data matches Loadable::Loaded(_)) ==> r.0 == false && *final(self)
                == *old(self) && r.1@.len() == 0,
    {
        let mut requests: Vec<BucketRequest> = Vec::new();
        match props.bucket_data {
            Loadable::Loaded(bucket_data) => {
                let q1 = Self::get_participants_in_bucket(bucket_data.id, &mut self.users, h1);
                let q2 = Self::determine_if_user_is_owner(
                    bucket_data.id,
                    &mut self.is_user_bucket_owner,
                    h2,
                );
                self.bucket_id = Some(bucket_data.id);
                requests.push(q1);
                requests.push(q2);
                proof {
                    assert(requests@ =~= seq![
                        (BucketRequest::GetUsersInBucket { bucket_id: bucket_data.id }),
                        (BucketRequest::GetIsUserOwnerOfBucket { bucket_id: bucket_data.id }),
                    ]);
                }
                (true, requests)
            },
            _ => (false, requests),
        }
    }
}

/// Whether `v` is the row shown for one participant: their name, and a
/// removal button exactly when the viewer owns the bucket.
pub open spec fn is_user_row(v: Html, u: UserData, is_user_owner: bool) -> bool {
    &&& v matches Html::Panel { class, children }
    &&& class@ == "flexbox-horiz full-width"@
    &&& children@.len() == 2
    &&& children@[0] matches Html::Panel { class: c0, children: n0 }
    &&& c0@ == "flexbox-expand"@
    &&& n0@.len() == 1
    &&& n0@[0] matches Html::Text(name)
    &&& name@ == u.user_name@
    &&& children@[1] matches Html::Panel { class: c1, children: n1 }
    &&& c1@ == ""@
    &&& n1@.len() == 1
    &&& (is_user_owner ==> (n1@[0] matches Html::Button { label } && label@ == "Remove"@))
    &&& (!is_user_owner ==> n1@[0] == Html::Empty)
}

/// Whether `v` lists the given participants, one row each, in order.
pub open spec fn is_users_view(v: Html, users: Seq<UserData>, is_user_owner: bool) -> bool {
    &&& v matches Html::Panel { class, children }
    &&& class@ == ""@
    &&& children@.len() == users.len()
    &&& forall|i: int|
        0 <= i < users.len() ==> is_user_row(#[trigger] children@[i], users[i], is_user_owner)
}

impl BucketParticipants {
    /// Renders one participant's row.
    fn user_view(user: &UserData, is_user_owner: bool) -> (r: Html)
        ensures
            is_user_row(r, *user, is_user_owner),
    {
        let delete_button: Html = if is_user_owner {
            Html::Button { label: String::from_str("Remove") }
        } else {
            crate::html::empty()
        };
        let mut name_panel_children: Vec<Html> = Vec::new();
        name_panel_children.push(Html::Text(user.user_name.clone()));
        let name_panel = Html::Panel {
            class: String::from_str("flexbox-expand"),
            children: name_panel_children,
        };
        let mut button_panel_children: Vec<Html> = Vec::new();
        button_panel_children.push(delete_button);
        let button_panel = Html::Panel {
            class: String::from_str(""),
            children: button_panel_children,
        };
        let mut children: Vec<Html> = Vec::new();
        children.push(name_panel);
        children.push(button_panel);
        Html::Panel { class: String::from_str("flexbox-horiz full-width"), children }
    }

    /// Renders the participant list, one row each, in order.
    fn users_view(users: &Vec<UserData>, is_user_owner: bool) -> (r: Html)
        ensures
            is_users_view(r, users@, is_user_owner),
    {
        let mut rows: Vec<Html> = Vec::new();
        let mut i: usize = 0;
        while i < users.len()
            invariant
                i <= users@.len(),
                rows@.len() == i,
                forall|j: int|
                    0 <= j < i ==> is_user_row(#[trigger] rows@[j], users@[j], is_user_owner),
            decreases users@.len() - i,
        {
            rows.push(Self::user_view(&users[i], is_user_owner));
            i += 1;
        }
        Html::Panel { class: String::from_str(""), children: rows }
    }

    /// Renders the participant list as the bucket's owner sees it: with
    /// removal buttons.
    pub fn users_owner_view(users: &Vec<UserData>) -> (r: Html)
        ensures
            is_users_view(r, users@, true),
    {
        Self::users_view(users, true)
    }

    /// Renders the participant list as everyone else sees it: names only.
    pub fn users_not_owner_view(users: &Vec<UserData>) -> (r: Html)
        ensures
            is_users_view(r, users@, false),
    {
        Self::users_view(users, false)
    }

    /// Renders the pane: the participant list inside the action pane,
    /// with removal buttons exactly when the ownership slot has loaded
    /// true.
    pub fn view(&self) -> (r: Html)
        ensures
            r matches Html::Panel { class, children } && class@ == "bucket-action-pane"@
                && children@.len() == 1 && {
                let owner = self.is_user_bucket_owner matches Loadable::Loaded(o) && o;
                &&& owner ==> is_loadable_view(
                    self.users,
                    Self::users_owner_view,
                    (Html::LoadingIcon { diameter: 100 }),
                    children@[0],
                )
                &&& !owner ==> is_loadable_view(
                    self.users,
                    Self::users_not_owner_view,
                    (Html::LoadingIcon { diameter: 100 }),
                    children@[0],
                )
            },
    {
        let inner: Html = match &self.is_user_bucket_owner {
            Loadable::Loaded(is_owner) => {
                if *is_owner {
                    self.users.default_view(Self::users_owner_view)
                } else {
                    self.users.default_view(Self::users_not_owner_view)
                }
            },
            _ => self.users.default_view(Self::users_not_owner_view),
        };
        let mut children: Vec<Html> = Vec::new();
        children.push(inner);
        Html::Panel { class: String::from_str("bucket-action-pane"), children }
    }
}

} // verus!
