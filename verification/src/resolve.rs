//! The read-time join: a classroom's image references are resolved against
//! the image store when the classroom is asked for.

use crate::error::{DirectoryError, Subject};
use crate::records::{
    classroom_names, ClassroomModel, ClassroomRecord, ImageModel, ImageRecord, ResolvedClassroom,
    ResolvedModel,
};
use crate::search::{
    first_match, lemma_first_match_none, lemma_first_match_some, lemma_first_match_step,
};
use vstd::prelude::*;

verus! {

/// The first classroom in store order that has the name, compared exactly.
pub open spec fn classroom_named(classrooms: Seq<ClassroomModel>, name: Seq<char>) -> Option<
    ClassroomModel,
> {
    first_match(classrooms, |classroom: ClassroomModel| classroom.name == name)
}

/// The payload of the first image in store order that has the name.
pub open spec fn payload_named(images: Seq<ImageModel>, name: Seq<char>) -> Option<Seq<char>> {
    match first_match(images, |image: ImageModel| image.name == name) {
        Some(image) => Some(image.payload),
        None => None,
    }
}

/// The payloads that the references resolve to: one for each reference that
/// names a stored image, in the order of the references. A reference that
/// names no image leaves no trace; one that occurs twice resolves twice.
pub open spec fn payloads_of(images: Seq<ImageModel>, refs: Seq<Seq<char>>) -> Seq<Seq<char>> {
    refs.filter_map(|name: Seq<char>| payload_named(images, name))
}

/// The images of a classroom with the given references: the payloads they
/// resolve to, unless there are references and none of them resolves.
pub open spec fn campus_images(images: Seq<ImageModel>, refs: Seq<Seq<char>>) -> Result<
    Seq<Seq<char>>,
    DirectoryError,
> {
    if refs.len() > 0 && payloads_of(images, refs).len() == 0 {
        Err(DirectoryError::NotFound(Subject::Images))
    } else {
        Ok(payloads_of(images, refs))
    }
}

/// The classroom joined with its images.
pub open spec fn joined(classroom: ClassroomModel, images: Seq<ImageModel>) -> Result<
    ResolvedModel,
    DirectoryError,
> {
    match campus_images(images, classroom.image_refs) {
        Ok(payloads) => Ok(
            ResolvedModel {
                name: classroom.name,
                description: classroom.description,
                images: payloads,
            },
        ),
        Err(error) => Err(error),
    }
}

/// What asking for the classroom `name` gives when the stores hold
/// `classrooms` and `images`.
pub open spec fn resolved(
    classrooms: Seq<ClassroomModel>,
    images: Seq<ImageModel>,
    name: Seq<char>,
) -> Result<ResolvedModel, DirectoryError> {
    match classroom_named(classrooms, name) {
        Some(classroom) => joined(classroom, images),
        None => Err(DirectoryError::NotFound(Subject::Classroom)),
    }
}

/// Whether no classroom has the name.
pub open spec fn no_classroom_named(classrooms: Seq<ClassroomModel>, name: Seq<char>) -> bool {
    forall|i: int| 0 <= i < classrooms.len() ==> (#[trigger] classrooms[i]).name != name
}

/// A name that no classroom has is not found, whatever the stores hold
/// besides.
pub proof fn lemma_unknown_classroom(
    classrooms: Seq<ClassroomModel>,
    images: Seq<ImageModel>,
    name: Seq<char>,
)
    requires
        no_classroom_named(classrooms, name),
    ensures
        classroom_named(classrooms, name) is None,
        resolved(classrooms, images, name) == Err::<ResolvedModel, _>(
            DirectoryError::NotFound(Subject::Classroom),
        ),
{
    lemma_first_match_none(classrooms, |classroom: ClassroomModel| classroom.name == name);
}

/// The classroom that a search finds bears the name that was asked for, and
/// so does the record that is returned for it.
pub proof fn lemma_found_classroom_is_named(
    classrooms: Seq<ClassroomModel>,
    images: Seq<ImageModel>,
    name: Seq<char>,
)
    ensures
        classroom_named(classrooms, name) matches Some(classroom) ==> classroom.name == name
            && classrooms.contains(classroom),
        resolved(classrooms, images, name) matches Ok(answer) ==> answer.name == name,
{
    let has_name = |classroom: ClassroomModel| classroom.name == name;
    if first_match(classrooms, has_name) is Some {
        lemma_first_match_some(classrooms, has_name);
    }
}

/// Where every reference names a stored image, each reference has its
/// payload, in the order of the references.
pub proof fn lemma_all_references_resolve(images: Seq<ImageModel>, refs: Seq<Seq<char>>)
    requires
        forall|i: int| 0 <= i < refs.len() ==> payload_named(images, #[trigger] refs[i]) is Some,
    ensures
        payloads_of(images, refs).len() == refs.len(),
        forall|i: int|
            0 <= i < refs.len() ==> payload_named(images, refs[i]) == Some(
                #[trigger] payloads_of(images, refs)[i],
            ),
    decreases refs.len(),
{
    if refs.len() > 0 {
        let rest = refs.drop_last();
        assert forall|i: int| 0 <= i < rest.len() implies payload_named(
            images,
            #[trigger] rest[i],
        ) is Some by {
            assert(rest[i] == refs[i]);
        }
        lemma_all_references_resolve(images, rest);
        assert(payload_named(images, refs[refs.len() - 1]) is Some);
        assert forall|i: int| 0 <= i < refs.len() implies payload_named(images, refs[i]) == Some(
            #[trigger] payloads_of(images, refs)[i],
        ) by {
            if i < rest.len() {
                assert(rest[i] == refs[i]);
                assert(payloads_of(images, refs)[i] == payloads_of(images, rest)[i]);
            }
        }
    }
}

/// Where no reference names a stored image, nothing resolves; with at least
/// one reference this is the error that no images were found.
pub proof fn lemma_no_reference_resolves(images: Seq<ImageModel>, refs: Seq<Seq<char>>)
    requires
        forall|i: int| 0 <= i < refs.len() ==> payload_named(images, #[trigger] refs[i]) is None,
    ensures
        payloads_of(images, refs).len() == 0,
        refs.len() > 0 ==> campus_images(images, refs) == Err::<Seq<Seq<char>>, _>(
            DirectoryError::NotFound(Subject::Images),
        ),
        refs.len() == 0 ==> campus_images(images, refs) == Ok::<_, DirectoryError>(
            Seq::<Seq<char>>::empty(),
        ),
    decreases refs.len(),
{
    if refs.len() > 0 {
        let rest = refs.drop_last();
        assert forall|i: int| 0 <= i < rest.len() implies payload_named(
            images,
            #[trigger] rest[i],
        ) is None by {
            assert(rest[i] == refs[i]);
        }
        lemma_no_reference_resolves(images, rest);
        assert(payload_named(images, refs[refs.len() - 1]) is None);
    } else {
        assert(payloads_of(images, refs) =~= Seq::<Seq<char>>::empty());
    }
}

/// One reference that names a stored image is enough: the images are served,
/// the payload of that image among them, however many other references name
/// nothing.
pub proof fn lemma_one_reference_resolves(images: Seq<ImageModel>, refs: Seq<Seq<char>>, i: int)
    requires
        0 <= i < refs.len(),
        payload_named(images, refs[i]) is Some,
    ensures
        campus_images(images, refs) == Ok::<_, DirectoryError>(payloads_of(images, refs)),
        payloads_of(images, refs).contains(payload_named(images, refs[i])->Some_0),
        payloads_of(images, refs).len() <= refs.len(),
    decreases refs.len(),
{
    let rest = refs.drop_last();
    let payloads = payloads_of(images, refs);
    let wanted = payload_named(images, refs[i])->Some_0;
    lemma_payloads_bounded(images, refs);
    if i < rest.len() {
        assert(rest[i] == refs[i]);
        lemma_one_reference_resolves(images, rest, i);
        let k = choose|k: int|
            0 <= k < payloads_of(images, rest).len() && payloads_of(images, rest)[k] == wanted;
        assert(payloads[k] == wanted);
    } else {
        assert(payloads[payloads.len() - 1] == wanted);
    }
}

/// There are at most as many payloads as references.
pub proof fn lemma_payloads_bounded(images: Seq<ImageModel>, refs: Seq<Seq<char>>)
    ensures
        payloads_of(images, refs).len() <= refs.len(),
    decreases refs.len(),
{
    if refs.len() > 0 {
        lemma_payloads_bounded(images, refs.drop_last());
    }
}

/// The model of an outcome whose value has a model.
pub open spec fn outcome_view<T: DeepView>(outcome: Result<T, DirectoryError>) -> Result<
    T::V,
    DirectoryError,
> {
    match outcome {
        Ok(value) => Ok(value.deep_view()),
        Err(error) => Err(error),
    }
}

/// Looks the classroom up by its exact name.
pub fn find_classroom<'a>(classrooms: &'a Vec<ClassroomRecord>, name: &str) -> (found: Option<
    &'a ClassroomRecord,
>)
    ensures
        found.deep_view() == classroom_named(classrooms.deep_view(), name@),
{
    let wanted = name.to_owned();
    let ghost models = classrooms.deep_view();
    let ghost has_name = |classroom: ClassroomModel| classroom.name == name@;
    let mut i: usize = 0;
    assert(models.skip(0) =~= models);
    while i < classrooms.len()
        invariant
            i <= classrooms.len(),
            wanted@ == name@,
            models == classrooms.deep_view(),
            has_name == |classroom: ClassroomModel| classroom.name == name@,
            first_match(models, has_name) == first_match(models.skip(i as int), has_name),
        decreases classrooms.len() - i,
    {
        proof {
            lemma_first_match_step(models, has_name, i as int);
        }
        if classrooms[i].name == wanted {
            return Some(&classrooms[i]);
        }
        i += 1;
    }
    None
}

/// Looks the payload of an image up by the image's exact name.
pub fn find_payload<'a>(images: &'a Vec<ImageRecord>, name: &String) -> (found: Option<
    &'a String,
>)
    ensures
        found.deep_view() == payload_named(images.deep_view(), name@),
{
    let ghost models = images.deep_view();
    let ghost has_name = |image: ImageModel| image.name == name@;
    let mut i: usize = 0;
    assert(models.skip(0) =~= models);
    while i < images.len()
        invariant
            i <= images.len(),
            models == images.deep_view(),
            has_name == |image: ImageModel| image.name == name@,
            first_match(models, has_name) == first_match(models.skip(i as int), has_name),
        decreases images.len() - i,
    {
        proof {
            lemma_first_match_step(models, has_name, i as int);
        }
        if images[i].name == *name {
            return Some(&images[i].payload);
        }
        i += 1;
    }
    None
}

/// Resolves image names against the stored images.
///
/// The payloads come in the order of `image_names`, not in store order.
/// Names that no stored image has are passed over. Only when there are names
/// and not one of them resolves is that an error.
pub fn get_campus_images(images: &Vec<ImageRecord>, image_names: &Vec<String>) -> (outcome: Result<
    Vec<String>,
    DirectoryError,
>)
    ensures
        outcome_view(outcome) == campus_images(images.deep_view(), image_names.deep_view()),
{
    let ghost refs = image_names.deep_view();
    let ghost lookup = |name: Seq<char>| payload_named(images.deep_view(), name);
    let mut payloads: Vec<String> = Vec::new();
    let mut i: usize = 0;
    assert(refs.take(0) =~= Seq::<Seq<char>>::empty());
    while i < image_names.len()
        invariant
            i <= image_names.len(),
            refs == image_names.deep_view(),
            lookup == |name: Seq<char>| payload_named(images.deep_view(), name),
            payloads.deep_view() == refs.take(i as int).filter_map(lookup),
        decreases image_names.len() - i,
    {
        proof {
            refs.lemma_filter_map_take_succ(lookup, i as int);
        }
        let ghost before = payloads.deep_view();
        match find_payload(images, &image_names[i]) {
            Some(payload) => {
                payloads.push(payload.clone());
                assert(payloads.deep_view() =~= before + seq![payload@]);
            },
            None => {},
        }
        i += 1;
    }
    assert(refs.take(i as int) =~= refs);
    if image_names.len() > 0 && payloads.len() == 0 {
        Err(DirectoryError::NotFound(Subject::Images))
    } else {
        Ok(payloads)
    }
}

/// Joins a classroom with the stored images.
pub fn resolve_classroom(classroom: &ClassroomRecord, images: &Vec<ImageRecord>) -> (outcome:
    Result<ResolvedClassroom, DirectoryError>)
    ensures
        outcome_view(outcome) == joined(classroom@, images.deep_view()),
{
    match get_campus_images(images, &classroom.image_refs) {
        Ok(payloads) => Ok(
            ResolvedClassroom {
                name: classroom.name.clone(),
                description: classroom.description.clone(),
                images: payloads,
            },
        ),
        Err(error) => Err(error),
    }
}

/// Looks a classroom up by name and joins it with the stored images.
pub fn get_classroom(classrooms: &Vec<ClassroomRecord>, images: &Vec<ImageRecord>, name: &str)
    -> (outcome: Result<ResolvedClassroom, DirectoryError>)
    ensures
        outcome_view(outcome) == resolved(classrooms.deep_view(), images.deep_view(), name@),
{
    match find_classroom(classrooms, name) {
        Some(classroom) => resolve_classroom(classroom, images),
        None => Err(DirectoryError::NotFound(Subject::Classroom)),
    }
}

/// The names of the classrooms, in store order.
pub fn list_classroom_names(classrooms: &Vec<ClassroomRecord>) -> (names: Vec<String>)
    ensures
        names.deep_view() == classroom_names(classrooms.deep_view()),
{
    let mut names: Vec<String> = Vec::new();
    let mut i: usize = 0;
    while i < classrooms.len()
        invariant
            i <= classrooms.len(),
            names.len() == i,
            forall|j: int| 0 <= j < i ==> (#[trigger] names[j])@ == classrooms[j].name@,
        decreases classrooms.len() - i,
    {
        names.push(classrooms[i].name.clone());
        i += 1;
    }
    assert(names.deep_view() =~= classroom_names(classrooms.deep_view()));
    names
}

} // verus!
