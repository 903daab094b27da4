//! The store pipeline of one batch, as a machine of decisions: it says
//! which outside work comes next (fetch a remote source, make a thumbnail,
//! store it) and takes the outcome back. Items are handled strictly in
//! order; the first failure ends the batch with one error, and items stored
//! before it stay stored.
use vstd::prelude::*;
use crate::api::{
    client_form, request_names, response_names, Error, ImageData, ImageRequest, ImageResponse,
    StoreImgRequestBody, StoreImgResponseBody,
};
use crate::service;
use crate::service::{base64_decoded, cause_text, ErrorCause, FetchError, Image, SaveError};
use crate::status::StatusCode;

verus! {

/// What the batch waits for.
#[derive(Clone, Copy, Debug, PartialEq, Eq, Structural)]
pub enum Stage {
    Fetching,
    Transforming,
    Saving,
    Finished,
}

/// The next piece of work for the batch's driver.
pub enum Action {
    /// Fetch the remote source at this address.
    Fetch(String),
    /// Make the thumbnail of these bytes.
    Transform(Vec<u8>),
    /// Store this thumbnail under its file name.
    Save(Image),
    /// Answer the request: the batch is over.
    Reply(Result<StoreImgResponseBody, Error>),
}

/// Whether `a` answers with this error code, cause text and context frames.
pub open spec fn fails_with(a: Action, code: StatusCode, cause: Seq<char>, frames: Seq<Seq<char>>) -> bool {
    &&& a matches Action::Reply(Err(e))
    &&& e.code == code
    &&& e.cause@ == cause
    &&& e.frames() == frames
}

/// Whether `a` answers with one acknowledgment for each item, in order.
pub open spec fn acknowledges(a: Action, items: Seq<ImageRequest>) -> bool {
    a matches Action::Reply(Ok(body)) && response_names(body.0@) == request_names(items)
}

/// Whether `a`, if it answers with acknowledgments, acknowledges every item
/// of the batch in order: a batch never answers with a partial list.
pub open spec fn never_partial(a: Action, items: Seq<ImageRequest>) -> bool {
    a matches Action::Reply(Ok(body)) ==> response_names(body.0@) == request_names(items)
}

/// Whether `a` and `stage` are how the handling of `item` begins: bytes go
/// to the transform as they are, base64 text once decoded, and a remote
/// source is fetched first. Text that is not base64 ends the batch.
pub open spec fn begins(item: ImageRequest, a: Action, stage: Stage) -> bool {
    match item.data {
        ImageData::Bytes(b) => a == Action::Transform(b) && stage == Stage::Transforming,
        ImageData::URI(u) => a == Action::Fetch(u) && stage == Stage::Fetching,
        ImageData::Base64(s) => match base64_decoded(s@) {
            Some(d) => (a matches Action::Transform(v) && v@ == d) && stage == Stage::Transforming,
            None => stage == Stage::Finished && (a matches Action::Reply(Err(e))
                && e.code == StatusCode::BadRequest && e.frames() == seq!["load image"@]
                && exists|m: Seq<char>| e.cause@ == "base64"@ + ": "@ + "failed to decode"@ + ": "@ + "base64: "@ + m),
        },
    }
}

/// An item of raw bytes reaches the transform unchanged, so that what is
/// stored for it is the transform of exactly the submitted bytes.
pub proof fn bytes_reach_transform_unchanged(item: ImageRequest, a: Action, stage: Stage)
    requires
        item.data is Bytes,
        begins(item, a, stage),
    ensures
        a matches Action::Transform(v) && v@ == item.data->Bytes_0@,
        stage == Stage::Transforming,
{
}

/// The state of one batch.
pub struct StoreBatch {
    items: Ghost<Seq<ImageRequest>>,
    /// The items not begun yet, the next one last.
    rest: Vec<ImageRequest>,
    /// The file name of the item in hand.
    current: String,
    acks: Vec<ImageResponse>,
    stage: Stage,
}

/// The client-facing error of a failed step, with the step's context.
fn fail(err: service::Error, ctx: &str) -> (r: Action)
    ensures
        r matches Action::Reply(Err(e)) && e.frames() == err.frames().push(ctx@) && client_form(err, e),
{
    Action::Reply(Err(Error::from_service_error(err).context(ctx)))
}

/// A copy of a list of acknowledgments.
fn copy_acks(acks: &Vec<ImageResponse>) -> (r: Vec<ImageResponse>)
    ensures
        response_names(r@) == response_names(acks@),
{
    let mut r: Vec<ImageResponse> = Vec::new();
    let mut i: usize = 0;
    while i < acks.len()
        invariant
            i <= acks@.len(),
            r@.len() == i,
            response_names(r@) == response_names(acks@).take(i as int),
        decreases acks@.len() - i,
    {
        let f = acks[i].filename.clone();
        assert(f@ == acks@[i as int].filename@);
        let ghost before = r@;
        r.push(ImageResponse::new(f));
        assert forall|j: int| 0 <= j < i + 1 implies response_names(r@)[j] == response_names(acks@)[j] by {
            if j < i {
                assert(r@[j] == before[j]);
                assert(response_names(before)[j] == response_names(acks@).take(i as int)[j]);
            }
        }
        assert(response_names(r@) =~= response_names(acks@).take(i + 1));
        i = i + 1;
    }
    assert(response_names(acks@).take(i as int) =~= response_names(acks@));
    r
}

impl StoreBatch {
    /// The items of the batch, in order.
    pub closed spec fn items(&self) -> Seq<ImageRequest> {
        self.items@
    }

    /// How many items are stored and acknowledged.
    pub closed spec fn done(&self) -> nat {
        self.acks@.len()
    }

    /// What the batch waits for.
    pub closed spec fn stage_of(&self) -> Stage {
        self.stage
    }

    /// The items not begun yet are the last ones, the next one last.
    closed spec fn rest_is_tail(&self) -> bool {
        forall|k: int| 0 <= k < self.rest@.len() ==> self.rest@[k] == self.items@[self.items@.len() - 1 - k]
    }

    /// The acknowledgments name the first items, in order; while the batch
    /// runs, the item in hand is the next one and the rest follow it.
    pub closed spec fn wf(&self) -> bool {
        let n = self.items@.len();
        let d = self.acks@.len();
        &&& d <= n
        &&& response_names(self.acks@) == request_names(self.items@).take(d as int)
        &&& self.stage != Stage::Finished ==> {
            &&& d < n
            &&& self.current@ == self.items@[d as int].filename@
            &&& self.rest@.len() == n - d - 1
            &&& self.rest_is_tail()
        }
    }

    /// What the batch waits for.
    pub fn stage(&self) -> (r: Stage)
        ensures
            r == self.stage_of(),
    {
        self.stage
    }

    /// Begins a batch; the action is the first piece of work, or the
    /// answer to an empty batch.
    pub fn start(body: StoreImgRequestBody) -> (r: (Self, Action))
        ensures
            r.0.wf(),
            r.0.items() == body.0@,
            r.0.done() == 0,
            body.0@.len() == 0 ==> r.0.stage_of() == Stage::Finished && acknowledges(r.1, body.0@),
            body.0@.len() > 0 ==> begins(body.0@[0], r.1, r.0.stage_of()),
            r.1 is Reply <==> r.0.stage_of() == Stage::Finished,
            never_partial(r.1, body.0@),
    {
        let StoreImgRequestBody(mut v) = body;
        let ghost all = v@;
        let mut rest: Vec<ImageRequest> = Vec::new();
        while v.len() > 0
            invariant
                v@ == all.take(v@.len() as int),
                rest@.len() == all.len() - v@.len(),
                forall|k: int| 0 <= k < rest@.len() ==> rest@[k] == all[all.len() - 1 - k],
            decreases v@.len(),
        {
            let x = v.pop().unwrap();
            rest.push(x);
        }
        let mut b = StoreBatch {
            items: Ghost(all),
            rest,
            current: String::new(),
            acks: Vec::new(),
            stage: Stage::Finished,
        };
        assert(response_names(b.acks@) =~= request_names(all).take(0));
        if b.rest.len() == 0 {
            let acks = Vec::new();
            assert(response_names(acks@) =~= request_names(all));
            return (b, Action::Reply(Ok(StoreImgResponseBody(acks))));
        }
        let a = b.begin_next();
        (b, a)
    }

    /// Takes the next item in hand and says how its handling begins.
    fn begin_next(&mut self) -> (a: Action)
        requires
            old(self).acks@.len() < old(self).items@.len(),
            old(self).rest@.len() == old(self).items@.len() - old(self).acks@.len(),
            old(self).rest_is_tail(),
            response_names(old(self).acks@) == request_names(old(self).items@).take(
                old(self).acks@.len() as int,
            ),
        ensures
            final(self).wf(),
            final(self).items@ == old(self).items@,
            final(self).acks@ == old(self).acks@,
            begins(old(self).items@[old(self).acks@.len() as int], a, final(self).stage),
            a is Reply <==> final(self).stage == Stage::Finished,
    {
        let ImageRequest { filename, data } = self.rest.pop().unwrap();
        let ghost d = self.acks@.len() as int;
        assert(self.items@.len() - 1 - (self.rest@.len() as int) == d);
        match data {
            ImageData::Bytes(b) => {
                self.current = filename;
                self.stage = Stage::Transforming;
                Action::Transform(b)
            },
            ImageData::URI(u) => {
                self.current = filename;
                self.stage = Stage::Fetching;
                Action::Fetch(u)
            },
            ImageData::Base64(s) => {
                match Image::from_base64(filename, s.as_str()) {
                    Ok(img) => {
                        self.current = img.filename;
                        self.stage = Stage::Transforming;
                        Action::Transform(img.data)
                    },
                    Err(e) => {
                        self.stage = Stage::Finished;
                        assert(e.frames() =~= Seq::<Seq<char>>::empty());
                        assert(Seq::<Seq<char>>::empty().push("load image"@) =~= seq!["load image"@]);
                        let ghost m = match &e.cause {
                            ErrorCause::Base64Decode(m) => m@,
                            _ => Seq::empty(),
                        };
                        let a = fail(e, "load image");
                        assert(a matches Action::Reply(Err(r)) && r.cause@ == "base64"@ + ": "@ + "failed to decode"@
                            + ": "@ + "base64: "@ + m);
                        a
                    },
                }
            },
        }
    }

    /// Takes the outcome of fetching the remote source of the item in hand.
    pub fn on_fetched(&mut self, fetched: Result<Vec<u8>, FetchError>) -> (a: Action)
        requires
            old(self).wf(),
            old(self).stage_of() == Stage::Fetching,
        ensures
            final(self).wf(),
            final(self).items() == old(self).items(),
            final(self).done() == old(self).done(),
            a is Reply <==> final(self).stage_of() == Stage::Finished,
            never_partial(a, old(self).items()),
            fetched is Ok ==> a == Action::Transform(fetched->Ok_0) && final(self).stage_of()
                == Stage::Transforming,
            fetched matches Err(FetchError::Request(m)) ==> fails_with(
                a,
                StatusCode::BadRequest,
                "uri"@ + ": "@ + "failed to fetch specified file"@ + ": "@ + cause_text(ErrorCause::Reqwest(m)),
                seq!["load image"@],
            ),
            fetched matches Err(FetchError::Body(m)) ==> fails_with(
                a,
                StatusCode::InternalServerError,
                cause_text(ErrorCause::Reqwest(m)),
                seq!["get response bytes"@, "load image"@],
            ),
    {
        let name = self.current.clone();
        match Image::from_fetched(name, fetched) {
            Ok(img) => {
                self.stage = Stage::Transforming;
                Action::Transform(img.data)
            },
            Err(e) => {
                self.stage = Stage::Finished;
                let ghost f = e.frames();
                let a = fail(e, "load image");
                assert(f.push("load image"@) =~= seq!["load image"@] || f.push("load image"@) =~= seq![
                    "get response bytes"@,
                    "load image"@,
                ]);
                a
            },
        }
    }

    /// Takes the outcome of the transform of the item in hand.
    pub fn on_transformed(&mut self, transformed: Result<Vec<u8>, String>) -> (a: Action)
        requires
            old(self).wf(),
            old(self).stage_of() == Stage::Transforming,
        ensures
            final(self).wf(),
            final(self).items() == old(self).items(),
            final(self).done() == old(self).done(),
            a is Reply <==> final(self).stage_of() == Stage::Finished,
            never_partial(a, old(self).items()),
            transformed is Ok ==> final(self).stage_of() == Stage::Saving && (a matches Action::Save(img)
                && img.filename@ == old(self).items()[old(self).done() as int].filename@ && img.data
                == transformed->Ok_0),
            transformed is Err ==> fails_with(
                a,
                StatusCode::InternalServerError,
                cause_text(ErrorCause::Libvips(transformed->Err_0)),
                seq!["thumbnail img"@],
            ),
    {
        let name = self.current.clone();
        match Image::from_thumbnail(name, transformed) {
            Ok(img) => {
                self.stage = Stage::Saving;
                Action::Save(img)
            },
            Err(e) => {
                self.stage = Stage::Finished;
                assert(e.frames() =~= Seq::<Seq<char>>::empty());
                assert(Seq::<Seq<char>>::empty().push("thumbnail img"@) =~= seq!["thumbnail img"@]);
                let a = fail(e, "thumbnail img");
                a
            },
        }
    }

    /// Takes the outcome of storing the thumbnail of the item in hand. On
    /// success the item is acknowledged, and the next item begins or, after
    /// the last, the batch answers with all acknowledgments.
    pub fn on_saved(&mut self, saved: Result<(), SaveError>) -> (a: Action)
        requires
            old(self).wf(),
            old(self).stage_of() == Stage::Saving,
        ensures
            final(self).wf(),
            final(self).items() == old(self).items(),
            a is Reply <==> final(self).stage_of() == Stage::Finished,
            never_partial(a, old(self).items()),
            saved is Ok ==> final(self).done() == old(self).done() + 1,
            saved is Ok && final(self).done() < old(self).items().len() ==> begins(
                old(self).items()[final(self).done() as int],
                a,
                final(self).stage_of(),
            ),
            saved is Ok && final(self).done() == old(self).items().len() ==> acknowledges(a, old(self).items()),
            saved matches Err(SaveError::Create(io)) ==> fails_with(
                a,
                StatusCode::InternalServerError,
                cause_text(ErrorCause::IO(io)),
                seq!["create file"@, "save thumbnail"@],
            ),
            saved matches Err(SaveError::Write(io)) ==> fails_with(
                a,
                StatusCode::InternalServerError,
                cause_text(ErrorCause::IO(io)),
                seq!["write file"@, "save thumbnail"@],
            ),
            saved is Err ==> final(self).done() == old(self).done(),
    {
        match service::save_result(saved) {
            Err(e) => {
                self.stage = Stage::Finished;
                let ghost f = e.frames();
                let a = fail(e, "save thumbnail");
                assert(f.push("save thumbnail"@) =~= seq!["create file"@, "save thumbnail"@] || f.push(
                    "save thumbnail"@,
                ) =~= seq!["write file"@, "save thumbnail"@]);
                a
            },
            Ok(()) => {
                let ghost d = self.acks@.len() as int;
                let ghost names = request_names(self.items@);
                let name = self.current.clone();
                self.acks.push(ImageResponse::new(name));
                assert(response_names(self.acks@) =~= names.take(d + 1));
                if self.rest.len() == 0 {
                    self.stage = Stage::Finished;
                    let acks = copy_acks(&self.acks);
                    assert(names.take(d + 1) =~= names);
                    Action::Reply(Ok(StoreImgResponseBody(acks)))
                } else {
                    self.begin_next()
                }
            },
        }
    }
}

} // verus!
