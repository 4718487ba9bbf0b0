//! A model of the two record stores, and what a reload leaves in them when
//! the store is reachable and carries out every step.

use crate::error::DirectoryError;
use crate::json::json_document;
use crate::mongo_client::{decoded_payloads, DirectoryState, StepModel, StoreReply};
use crate::records::{
    classroom_names, classrooms_keyed, images_keyed, ClassroomModel, ImageModel, ResolvedModel,
};
use vstd::multiset::*;
use vstd::prelude::*;
use vstd::seq_lib::*;

verus! {

/// The contents of the image store and of the classroom store.
pub ghost struct Stores {
    pub images: Seq<ImageModel>,
    pub classrooms: Seq<ClassroomModel>,
}

impl Stores {
    /// The contents after a step has been carried out: a replacement drops
    /// what its store held and puts the given records there; no other step
    /// writes.
    pub open spec fn after(self, step: StepModel) -> Stores {
        match step {
            StepModel::ReplaceImages(images) => Stores { images, ..self },
            StepModel::ReplaceClassrooms(classrooms) => Stores { classrooms, ..self },
            _ => self,
        }
    }
}

/// The state of the directory and the contents of the stores after a reload
/// of the two payloads during which every step succeeds. A reload names at
/// most three steps to carry out.
pub open spec fn reloaded(
    state: DirectoryState,
    stores: Stores,
    classroom_data: Seq<char>,
    image_data: Seq<char>,
) -> (DirectoryState, Stores) {
    let probing = state.begin(classroom_data, image_data);
    let first = probing.next(StoreReply::Succeeded);
    let second = first.0.next(StoreReply::Succeeded);
    let third = second.0.next(StoreReply::Succeeded);
    (third.0, stores.after(first.1).after(second.1).after(third.1))
}

/// Whether the two payloads are valid: both decode, and no record in them
/// has an empty key.
pub open spec fn payloads_valid(classroom_data: Seq<char>, image_data: Seq<char>) -> bool {
    match decoded_payloads(json_document(classroom_data), json_document(image_data)) {
        Ok((images, classrooms)) => images_keyed(images) && classrooms_keyed(classrooms),
        Err(_) => false,
    }
}

/// The records of two valid payloads.
pub open spec fn payload_records(classroom_data: Seq<char>, image_data: Seq<char>) -> Stores {
    let decoded = decoded_payloads(json_document(classroom_data), json_document(image_data));
    Stores { images: decoded->Ok_0.0, classrooms: decoded->Ok_0.1 }
}

/// Records that come back from a store in another order than they went in
/// still give the same names, each as often as before.
pub proof fn lemma_names_order_free(written: Seq<ClassroomModel>, returned: Seq<ClassroomModel>)
    requires
        returned.to_multiset() == written.to_multiset(),
    ensures
        classroom_names(returned).to_multiset() == classroom_names(written).to_multiset(),
        classroom_names(returned).to_set() == classroom_names(written).to_set(),
        classroom_names(returned).len() == classroom_names(written).len(),
    decreases written.len(),
{
    broadcast use group_multiset_axioms;

    let names_written = classroom_names(written);
    let names_returned = classroom_names(returned);
    written.to_multiset_ensures();
    returned.to_multiset_ensures();
    if written.len() == 0 {
        assert(names_returned =~= names_written);
    } else {
        let last = written.last();
        let rest_written = written.drop_last();
        assert(written =~= rest_written.push(last));
        rest_written.to_multiset_ensures();
        assert(returned.to_multiset().count(last) > 0);
        assert(returned.contains(last));
        let k = choose|k: int| 0 <= k < returned.len() && returned[k] == last;
        let rest_returned = returned.remove(k);
        assert(rest_returned.to_multiset() =~= rest_written.to_multiset());
        lemma_names_order_free(rest_written, rest_returned);
        let names_rest_written = classroom_names(rest_written);
        let names_rest_returned = classroom_names(rest_returned);
        assert(names_written =~= names_rest_written.push(last.name));
        assert(names_rest_returned =~= names_returned.remove(k));
        names_rest_written.to_multiset_ensures();
        names_returned.to_multiset_ensures();
        assert(names_returned[k] == last.name);
        assert(names_returned.to_multiset() =~= names_rest_returned.to_multiset().insert(
            last.name,
        ));
        assert(names_returned.to_multiset() =~= names_written.to_multiset());
    }
    names_written.to_multiset_ensures();
    names_returned.to_multiset_ensures();
    assert(names_returned.to_set() =~= names_written.to_set()) by {
        assert forall|name: Seq<char>|
            names_returned.to_set().contains(name) <==> names_written.to_set().contains(
                name,
            ) by {
            assert(names_returned.contains(name) <==> names_returned.to_multiset().count(name) > 0);
            assert(names_written.contains(name) <==> names_written.to_multiset().count(name) > 0);
        }
    }
}

/// A reload of valid payloads makes the directory ready and leaves in the
/// stores exactly the records of the payloads, in payload order, whatever
/// the stores held before. The list of classrooms then has exactly the names
/// of the classroom payload: a name that the payload has twice is listed
/// twice, and this in whatever order the store returns its classrooms.
pub proof fn lemma_reload_serves_payloads(
    state: DirectoryState,
    stores: Stores,
    classroom_data: Seq<char>,
    image_data: Seq<char>,
    returned: Seq<ClassroomModel>,
)
    requires
        payloads_valid(classroom_data, image_data),
        returned.to_multiset() == payload_records(
            classroom_data,
            image_data,
        ).classrooms.to_multiset(),
    ensures
        reloaded(state, stores, classroom_data, image_data) == (
            DirectoryState::Ready,
            payload_records(classroom_data, image_data),
        ),
        DirectoryState::Ready.listing(Some(returned)) is Ok,
        DirectoryState::Ready.listing(Some(returned))->Ok_0.to_multiset() == classroom_names(
            payload_records(classroom_data, image_data).classrooms,
        ).to_multiset(),
        DirectoryState::Ready.listing(Some(returned))->Ok_0.to_set() == classroom_names(
            payload_records(classroom_data, image_data).classrooms,
        ).to_set(),
{
    lemma_names_order_free(payload_records(classroom_data, image_data).classrooms, returned);
}

/// From the first step of a reload to its last, no read is answered from the
/// stores: whatever they hold while they are being replaced, a read is
/// refused. So no answer mixes what the stores held before a reload with
/// what they hold after it.
pub proof fn lemma_no_read_during_reload(
    state: DirectoryState,
    name: Seq<char>,
    stored_classrooms: Option<Seq<ClassroomModel>>,
    stored_images: Option<Seq<ImageModel>>,
)
    requires
        state is Probing || state is WritingImages || state is WritingClassrooms,
    ensures
        state.listing(stored_classrooms) == Err::<Seq<Seq<char>>, _>(
            DirectoryError::NotInitialized,
        ),
        state.search(name, stored_classrooms) == Err::<ClassroomModel, _>(
            DirectoryError::NotInitialized,
        ),
        state.lookup(name, stored_classrooms, stored_images) == Err::<ResolvedModel, _>(
            DirectoryError::NotInitialized,
        ),
{
}

/// A write is named only in answer to a success: the image store is replaced
/// only after the probe has succeeded and both payloads have decoded, the
/// classroom store only after the image store has been replaced.
pub proof fn lemma_write_follows_success(state: DirectoryState, reply: StoreReply)
    ensures
        state.next(reply).1 is ReplaceImages ==> state is Probing && reply == StoreReply::Succeeded
            && decoded_payloads(
            json_document(state->classroom_data),
            json_document(state->image_data),
        ) is Ok,
        state.next(reply).1 is ReplaceClassrooms ==> state is WritingImages && reply
            == StoreReply::Succeeded,
        reply == StoreReply::Failed ==> state.next(reply).1 is Failed || state is Ready,
{
}

/// A reload whose images can be stored but whose classrooms cannot ends in a
/// persistence error between the two writes: the image store holds the new
/// images, the classroom store what it held before, and the directory is
/// ready only if it was so before.
pub proof fn lemma_reload_stops_between_writes(
    state: DirectoryState,
    stores: Stores,
    classroom_data: Seq<char>,
    image_data: Seq<char>,
)
    requires
        decoded_payloads(json_document(classroom_data), json_document(image_data)) is Ok,
        images_keyed(payload_records(classroom_data, image_data).images),
        !classrooms_keyed(payload_records(classroom_data, image_data).classrooms),
    ensures
        state.begin(classroom_data, image_data).next(StoreReply::Succeeded).0.next(
            StoreReply::Succeeded,
        ).1 == StepModel::Failed(DirectoryError::Persistence),
        reloaded(state, stores, classroom_data, image_data) == (
            DirectoryState::fallback(state.resumes()),
            Stores {
                images: payload_records(classroom_data, image_data).images,
                classrooms: stores.classrooms,
            },
        ),
{
}

/// A second reload of the same payloads changes nothing: the state of the
/// directory and the contents of the stores are as after the first, and so
/// is the answer to every read.
pub proof fn lemma_reload_idempotent(
    state: DirectoryState,
    stores: Stores,
    classroom_data: Seq<char>,
    image_data: Seq<char>,
)
    ensures
        ({
            let once = reloaded(state, stores, classroom_data, image_data);
            let twice = reloaded(once.0, once.1, classroom_data, image_data);
            &&& twice == once
            &&& twice.0.listing(Some(twice.1.classrooms)) == once.0.listing(
                Some(once.1.classrooms),
            )
            &&& forall|name: Seq<char>|
                #![auto]
                twice.0.lookup(name, Some(twice.1.classrooms), Some(twice.1.images))
                    == once.0.lookup(name, Some(once.1.classrooms), Some(once.1.images))
        }),
{
}

} // verus!
