//! What a notification of the registry asks of the server: who may send one,
//! and which services of which compose files have to be pulled and brought
//! up again.

use vstd::prelude::*;
use vstd::string::StringExecFns;

use crate::decimal::decimal;
use crate::request::Request;
use crate::response::{
    head_text, with_defaults, Outgoing, PayloadModel, Response, ResponseModel, Sendable,
};
use crate::status_code::StatusCode;
use crate::string_map::{lookup, put, Entries, StringMap};
use crate::text::{same_text, texts};

verus! {

/// One event of a notification: what was done, on which host, to which repository.
#[derive(Debug)]
pub struct RegistryEvent {
    pub action: String,
    pub host: String,
    pub repository: String,
}

/// The model of a `RegistryEvent`.
pub struct EventModel {
    pub action: Seq<char>,
    pub host: Seq<char>,
    pub repository: Seq<char>,
}

impl View for RegistryEvent {
    type V = EventModel;

    open spec fn view(&self) -> EventModel {
        EventModel { action: self.action@, host: self.host@, repository: self.repository@ }
    }
}

/// A compose file that is listened for, and the images of its watched
/// services, each with the service that runs it.
#[derive(Debug)]
pub struct Listener {
    pub compose_path: String,
    pub images: StringMap,
}

/// The model of a `Listener`.
pub struct ListenerModel {
    pub compose_path: Seq<char>,
    pub images: Entries,
}

impl View for Listener {
    type V = ListenerModel;

    open spec fn view(&self) -> ListenerModel {
        ListenerModel { compose_path: self.compose_path@, images: self.images.entries() }
    }
}

/// The services of one compose file that have to be pulled and brought up again.
#[derive(Debug)]
pub struct Update {
    pub compose_path: String,
    pub services: Vec<String>,
}

/// The model of an `Update`.
pub struct UpdateModel {
    pub compose_path: Seq<char>,
    pub services: Seq<Seq<char>>,
}

impl View for Update {
    type V = UpdateModel;

    open spec fn view(&self) -> UpdateModel {
        UpdateModel { compose_path: self.compose_path@, services: texts(self.services@) }
    }
}

/// What a notification asks for: the updates, in the order in which their
/// compose files first came up, and the images that may have been left dangling.
#[derive(Debug)]
pub struct Plan {
    pub updates: Vec<Update>,
    pub dangling: Vec<String>,
}

/// The model of a `Plan`.
pub struct PlanModel {
    pub updates: Seq<UpdateModel>,
    pub dangling: Seq<Seq<char>>,
}

/// The models of the events.
pub open spec fn event_models(events: Seq<RegistryEvent>) -> Seq<EventModel> {
    Seq::new(events.len(), |i: int| events[i]@)
}

/// The models of the listeners.
pub open spec fn listener_models(listeners: Seq<Listener>) -> Seq<ListenerModel> {
    Seq::new(listeners.len(), |i: int| listeners[i]@)
}

/// The models of the updates.
pub open spec fn update_models(updates: Seq<Update>) -> Seq<UpdateModel> {
    Seq::new(updates.len(), |i: int| updates[i]@)
}

impl View for Plan {
    type V = PlanModel;

    open spec fn view(&self) -> PlanModel {
        PlanModel { updates: update_models(self.updates@), dangling: texts(self.dangling@) }
    }
}

/// The value of the `Authorization` header that presents `token`.
pub open spec fn bearer(token: Seq<char>) -> Seq<char> {
    "Bearer "@ + token
}

/// Whether a request with these headers may be served: always where no token
/// is asked for, else where the `Authorization` header presents the token.
pub open spec fn authenticated(headers: Entries, token: Option<Seq<char>>) -> bool {
    match token {
        None => true,
        Some(token) => lookup(headers, "Authorization"@) == Some(bearer(token)),
    }
}

/// The image that an event is about: the host, a slash, the repository.
pub open spec fn pushed_image(event: EventModel) -> Seq<char> {
    event.host + "/"@ + event.repository
}

/// The first position at or after `from` of the update of the compose file at `path`.
pub open spec fn update_from(updates: Seq<UpdateModel>, path: Seq<char>, from: int) -> Option<int>
    decreases updates.len() - from + 1,
{
    if from < 0 || from >= updates.len() {
        None
    } else if updates[from].compose_path == path {
        Some(from)
    } else {
        update_from(updates, path, from + 1)
    }
}

/// The updates with one more service of the compose file at `path`: at the
/// end of the update of that file, or in a new update at the end where the
/// file had none.
pub open spec fn with_service(
    updates: Seq<UpdateModel>,
    path: Seq<char>,
    service: Seq<char>,
) -> Seq<UpdateModel> {
    match update_from(updates, path, 0) {
        Some(i) => updates.update(
            i,
            UpdateModel { compose_path: path, services: updates[i].services.push(service) },
        ),
        None => updates.push(UpdateModel { compose_path: path, services: seq![service] }),
    }
}

/// The updates after the first `n` listeners heard of a push of `image`:
/// each listener that listens for the image adds the service that runs it.
pub open spec fn heard(
    updates: Seq<UpdateModel>,
    image: Seq<char>,
    listeners: Seq<ListenerModel>,
    n: int,
) -> Seq<UpdateModel>
    decreases n,
{
    if n <= 0 {
        updates
    } else {
        let before = heard(updates, image, listeners, n - 1);
        match lookup(listeners[n - 1].images, image) {
            Some(service) => with_service(before, listeners[n - 1].compose_path, service),
            None => before,
        }
    }
}

/// The plan after one more event. Only a push counts: every listener hears of
/// its image, and the image is noted as possibly dangling where dangling
/// images are to be removed.
pub open spec fn with_event(
    plan: PlanModel,
    event: EventModel,
    listeners: Seq<ListenerModel>,
    remove_dangling: bool,
) -> PlanModel {
    if event.action == "push"@ {
        PlanModel {
            updates: heard(plan.updates, pushed_image(event), listeners, listeners.len() as int),
            dangling: if remove_dangling {
                plan.dangling.push(pushed_image(event))
            } else {
                plan.dangling
            },
        }
    } else {
        plan
    }
}

/// The plan after the first `n` events.
pub open spec fn planned(
    events: Seq<EventModel>,
    n: int,
    listeners: Seq<ListenerModel>,
    remove_dangling: bool,
) -> PlanModel
    decreases n,
{
    if n <= 0 {
        PlanModel { updates: Seq::empty(), dangling: Seq::empty() }
    } else {
        with_event(
            planned(events, n - 1, listeners, remove_dangling),
            events[n - 1],
            listeners,
            remove_dangling,
        )
    }
}

/// What `update_from` returns is an update of the compose file at `path`.
pub proof fn lemma_update_from(updates: Seq<UpdateModel>, path: Seq<char>, from: int)
    requires
        0 <= from,
    ensures
        match update_from(updates, path, from) {
            Some(i) => from <= i < updates.len() && updates[i].compose_path == path,
            None => true,
        },
    decreases updates.len() - from + 1,
{
    if from < updates.len() && updates[from].compose_path != path {
        lemma_update_from(updates, path, from + 1);
    }
}

/// What is done about a plan: where no service has to be updated, nothing is
/// done at all, and the images that were noted are let go.
pub open spec fn acted_on(plan: PlanModel) -> PlanModel {
    if plan.updates.len() == 0 {
        PlanModel { updates: Seq::empty(), dangling: Seq::empty() }
    } else {
        plan
    }
}

/// Whether `req` may be served, given the token that the server asks for.
pub fn authenticate(req: &Request, auth_token: Option<&str>) -> (b: bool)
    ensures
        b == authenticated(
            req.headers.entries(),
            match auth_token {
                Some(token) => Some(token@),
                None => None,
            },
        ),
{
    match auth_token {
        None => true,
        Some(token) => {
            let mut expected = "Bearer ".to_owned();
            expected.append(token);
            match req.headers.get("Authorization") {
                Some(given) => same_text(given.as_str(), expected.as_str()),
                None => false,
            }
        },
    }
}

/// The response to a caller that may not be served: 401, with a short text.
pub fn unauthorized(res: &mut Response) -> (out: Outgoing)
    ensures
        final(res)@ == with_defaults(
            ResponseModel { status: StatusCode::Unauthorized, ..old(res)@ },
            "401 Unauthorized".length_text(),
        ),
        out.head@ == head_text(final(res)@),
        out.payload@ == PayloadModel::Text("401 Unauthorized"@),
{
    res.status(StatusCode::Unauthorized).try_send("401 Unauthorized")
}

/// The response after the server failed at what was asked: 500, with a short text.
pub fn server_error(res: &mut Response) -> (out: Outgoing)
    ensures
        final(res)@ == with_defaults(
            ResponseModel { status: StatusCode::InternalServerError, ..old(res)@ },
            "500 Internal server error".length_text(),
        ),
        out.head@ == head_text(final(res)@),
        out.payload@ == PayloadModel::Text("500 Internal server error"@),
{
    res.status(StatusCode::InternalServerError).try_send("500 Internal server error")
}

/// The first answer to a request: an empty response to a caller that may be
/// served, whose notification is then to be handled, and a 401 to any other.
/// Says what has to be written, and whether the notification is to be handled.
pub fn handle_connection(req: &Request, res: &mut Response, auth_token: Option<&str>) -> (r: (
    Outgoing,
    bool,
))
    ensures
        r.1 == authenticated(
            req.headers.entries(),
            match auth_token {
                Some(token) => Some(token@),
                None => None,
            },
        ),
        r.0.head@ == head_text(final(res)@),
        r.1 ==> r.0.payload@ == PayloadModel::Empty && final(res)@ == (ResponseModel {
            headers: put(old(res)@.headers, "Content-Length"@, decimal(0)),
            ..old(res)@
        }),
        !r.1 ==> r.0.payload@ == PayloadModel::Text("401 Unauthorized"@) && final(res)@
            == with_defaults(
            ResponseModel { status: StatusCode::Unauthorized, ..old(res)@ },
            "401 Unauthorized".length_text(),
        ),
{
    if authenticate(req, auth_token) {
        (res.try_send_empty(), true)
    } else {
        (unauthorized(res), false)
    }
}

fn find_update(updates: &Vec<Update>, path: &str) -> (r: Option<usize>)
    ensures
        match r {
            Some(i) => update_from(update_models(updates@), path@, 0) == Some(i as int) && i
                < updates@.len(),
            None => update_from(update_models(updates@), path@, 0) is None,
        },
{
    let mut i: usize = 0;
    while i < updates.len()
        invariant
            i <= updates@.len(),
            update_from(update_models(updates@), path@, 0) == update_from(
                update_models(updates@),
                path@,
                i as int,
            ),
        decreases updates@.len() - i,
    {
        assert(update_models(updates@)[i as int] == updates@[i as int]@);
        if same_text(updates[i].compose_path.as_str(), path) {
            return Some(i);
        }
        i = i + 1;
    }
    None
}

/// Notes that `service` of the compose file at `path` has to be updated.
pub fn note_service(updates: &mut Vec<Update>, path: &str, service: &str)
    ensures
        update_models(final(updates)@) == with_service(
            update_models(old(updates)@),
            path@,
            service@,
        ),
{
    let ghost before = update_models(updates@);
    match find_update(updates, path) {
        Some(i) => {
            let mut update = updates.remove(i);
            assert(update@ == before[i as int]);
            let ghost had = update.services@;
            update.services.push(service.to_owned());
            assert(texts(update.services@) == texts(had).push(service@));
            let ghost changed = update@;
            updates.insert(i, update);
            proof {
                lemma_update_from(before, path@, 0);
                let after = update_models(updates@);
                let wanted = with_service(before, path@, service@);
                assert(after.len() == wanted.len());
                assert forall|j: int| 0 <= j < after.len() implies after[j] == wanted[j] by {
                    if j == i {
                        assert(after[j] == changed);
                    } else {
                        assert(after[j] == updates@[j]@);
                        assert(before[j] == old(updates)@[j]@);
                    }
                }
                assert(after == wanted);
            }
        },
        None => {
            let mut services: Vec<String> = Vec::new();
            services.push(service.to_owned());
            assert(texts(services@) == seq![service@]);
            updates.push(Update { compose_path: path.to_owned(), services });
            assert(update_models(updates@) == with_service(before, path@, service@));
        },
    }
}

/// What the events of a notification ask for, given the listeners and
/// whether dangling images are to be removed. Where no service has to be
/// updated, the plan is empty.
pub fn plan(events: &Vec<RegistryEvent>, listeners: &Vec<Listener>, remove_dangling: bool) -> (p:
    Plan)
    ensures
        p@ == acted_on(
            planned(
                event_models(events@),
                events@.len() as int,
                listener_models(listeners@),
                remove_dangling,
            ),
        ),
{
    let mut updates: Vec<Update> = Vec::new();
    let mut dangling: Vec<String> = Vec::new();
    let ghost heads = listener_models(listeners@);
    let mut i: usize = 0;
    assert(update_models(updates@) == Seq::<UpdateModel>::empty());
    assert(texts(dangling@) == Seq::<Seq<char>>::empty());
    while i < events.len()
        invariant
            i <= events@.len(),
            heads == listener_models(listeners@),
            (PlanModel { updates: update_models(updates@), dangling: texts(dangling@) })
                == planned(event_models(events@), i as int, heads, remove_dangling),
        decreases events@.len() - i,
    {
        let event = &events[i];
        assert(event_models(events@)[i as int] == event@);
        if same_text(event.action.as_str(), "push") {
            let mut image = event.host.clone();
            image.append("/");
            image.append(event.repository.as_str());
            if remove_dangling {
                let ghost noted = texts(dangling@);
                dangling.push(image.clone());
                assert(texts(dangling@) == noted.push(image@));
            }
            let ghost start = update_models(updates@);
            let mut k: usize = 0;
            while k < listeners.len()
                invariant
                    k <= listeners@.len(),
                    heads == listener_models(listeners@),
                    update_models(updates@) == heard(start, image@, heads, k as int),
                decreases listeners@.len() - k,
            {
                let listener = &listeners[k];
                assert(heads[k as int] == listener@);
                match listener.images.get(image.as_str()) {
                    Some(service) => {
                        note_service(&mut updates, listener.compose_path.as_str(), service.as_str());
                    },
                    None => {},
                }
                k = k + 1;
            }
        }
        i = i + 1;
    }
    if updates.len() == 0 {
        let nothing = Plan { updates: Vec::new(), dangling: Vec::new() };
        assert(nothing@.updates == Seq::<UpdateModel>::empty());
        assert(nothing@.dangling == Seq::<Seq<char>>::empty());
        nothing
    } else {
        Plan { updates, dangling }
    }
}

} // verus!
