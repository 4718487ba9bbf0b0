//! The navigation directory: the client of a record store that holds
//! classrooms and campus images.
//!
//! The directory never touches the store itself. A reload is a short
//! conversation: the directory names a [`Step`], the caller carries it out
//! against the store and reports a [`StoreReply`], and the directory names
//! the next step. A read is answered from what the caller has fetched from
//! the store.
//!
//! A reload replaces the image store first and the classroom store second.
//! When it fails between the two, the image store holds the new images and
//! the classroom store still holds the old classrooms; a directory that was
//! ready before goes on serving from that mixed content.

use crate::error::{DirectoryError, Subject};
use crate::json::{
    json_document, json_text, lemma_nested_within_more, lemma_texts_nested, render_document,
    JsonDoc, JsonValue, MAX_NESTING,
};
use crate::records::{
    all_classrooms_keyed, all_images_keyed, classroom_names, classrooms_keyed, images_keyed,
    lemma_classroom_nested, ClassroomModel, ClassroomRecord, ImageModel, ImageRecord,
    ResolvedClassroom, ResolvedModel,
};
use crate::resolve::{
    classroom_named, find_classroom, joined, lemma_unknown_classroom, list_classroom_names,
    no_classroom_named, outcome_view, resolve_classroom,
};
use vstd::prelude::*;

verus! {

/// How the record store answered the last step.
#[derive(Debug, Clone, Copy, PartialEq, Eq, Structural)]
pub enum StoreReply {
    /// The step was carried out.
    Succeeded,
    /// The store could not be reached or refused the step.
    Failed,
}

/// What a reload asks of the caller next, or how it ended.
#[derive(Debug, PartialEq, Eq)]
pub enum Step {
    /// Check that the record store is alive.
    Probe,
    /// Drop every image in the image store and insert these.
    ReplaceImages(Vec<ImageRecord>),
    /// Drop every classroom in the classroom store and insert these.
    ReplaceClassrooms(Vec<ClassroomRecord>),
    /// The reload is complete and the directory serves reads.
    Ready,
    /// The reload is over and has failed.
    Failed(DirectoryError),
}

/// The mathematical model of a [`Step`].
pub ghost enum StepModel {
    Probe,
    ReplaceImages(Seq<ImageModel>),
    ReplaceClassrooms(Seq<ClassroomModel>),
    Ready,
    Failed(DirectoryError),
}

impl View for Step {
    type V = StepModel;

    open spec fn view(&self) -> StepModel {
        match self {
            Step::Probe => StepModel::Probe,
            Step::ReplaceImages(images) => StepModel::ReplaceImages(images.deep_view()),
            Step::ReplaceClassrooms(classrooms) => StepModel::ReplaceClassrooms(
                classrooms.deep_view(),
            ),
            Step::Ready => StepModel::Ready,
            Step::Failed(error) => StepModel::Failed(*error),
        }
    }
}

/// The records that two parsed payloads hold: the images and the classrooms,
/// each in payload order. A payload that did not parse, or that is not an
/// array of records of its kind, is a parse error.
pub open spec fn decoded_payloads(classroom_doc: Option<JsonDoc>, image_doc: Option<JsonDoc>)
    -> Result<(Seq<ImageModel>, Seq<ClassroomModel>), DirectoryError> {
    match (classroom_doc, image_doc) {
        (Some(classroom_doc), Some(image_doc)) => match (
            ImageModel::list_from_json(image_doc),
            ClassroomModel::list_from_json(classroom_doc),
        ) {
            (Some(images), Some(classrooms)) => Ok((images, classrooms)),
            _ => Err(DirectoryError::Parse),
        },
        _ => Err(DirectoryError::Parse),
    }
}

/// The state of a directory.
pub ghost enum DirectoryState {
    /// No reload has completed; reads are refused.
    Uninitialized,
    /// A reload has completed and none is under way; reads are served.
    Ready,
    /// A reload waits for the answer to the probe.
    Probing { classroom_data: Seq<char>, image_data: Seq<char>, resume: bool },
    /// A reload waits for the image store to be replaced.
    WritingImages { classrooms: Seq<ClassroomModel>, resume: bool },
    /// A reload waits for the classroom store to be replaced.
    WritingClassrooms { resume: bool },
}

impl DirectoryState {
    /// The state that a reload falls back to when it fails: ready if the
    /// directory was ready when the reload began.
    pub open spec fn fallback(resume: bool) -> DirectoryState {
        if resume {
            DirectoryState::Ready
        } else {
            DirectoryState::Uninitialized
        }
    }

    /// Whether the directory was ready before the reload that is under way,
    /// or is ready now.
    pub open spec fn resumes(self) -> bool {
        match self {
            DirectoryState::Uninitialized => false,
            DirectoryState::Ready => true,
            DirectoryState::Probing { resume, .. } => resume,
            DirectoryState::WritingImages { resume, .. } => resume,
            DirectoryState::WritingClassrooms { resume } => resume,
        }
    }

    /// The state in which a reload of the two payloads begins: whatever was
    /// under way is given up, and the probe is awaited.
    pub open spec fn begin(self, classroom_data: Seq<char>, image_data: Seq<char>)
        -> DirectoryState {
        DirectoryState::Probing { classroom_data, image_data, resume: self.resumes() }
    }

    /// The state after the store's reply, and the step that is named in
    /// return.
    ///
    /// Nothing is written before the probe has succeeded and both payloads
    /// have decoded. Each store refuses records with an empty key as a whole.
    /// With no reload under way, a reply changes nothing.
    pub open spec fn next(self, reply: StoreReply) -> (DirectoryState, StepModel) {
        match self {
            DirectoryState::Uninitialized => (self, StepModel::Failed(DirectoryError::NotInitialized)),
            DirectoryState::Ready => (self, StepModel::Ready),
            DirectoryState::Probing { classroom_data, image_data, resume } => match reply {
                StoreReply::Failed => (
                    Self::fallback(resume),
                    StepModel::Failed(DirectoryError::Connectivity),
                ),
                StoreReply::Succeeded => match decoded_payloads(
                    json_document(classroom_data),
                    json_document(image_data),
                ) {
                    Err(error) => (Self::fallback(resume), StepModel::Failed(error)),
                    Ok((images, classrooms)) => if images_keyed(images) {
                        (
                            DirectoryState::WritingImages { classrooms, resume },
                            StepModel::ReplaceImages(images),
                        )
                    } else {
                        (Self::fallback(resume), StepModel::Failed(DirectoryError::Persistence))
                    },
                },
            },
            DirectoryState::WritingImages { classrooms, resume } => match reply {
                StoreReply::Succeeded if classrooms_keyed(classrooms) => (
                    DirectoryState::WritingClassrooms { resume },
                    StepModel::ReplaceClassrooms(classrooms),
                ),
                _ => (Self::fallback(resume), StepModel::Failed(DirectoryError::Persistence)),
            },
            DirectoryState::WritingClassrooms { resume } => match reply {
                StoreReply::Succeeded => (DirectoryState::Ready, StepModel::Ready),
                StoreReply::Failed => (
                    Self::fallback(resume),
                    StepModel::Failed(DirectoryError::Persistence),
                ),
            },
        }
    }

    /// The answer to a request for the list of classroom names, given what
    /// reading the classroom store returned (nothing where the read failed):
    /// the names in the order in which the store returned the classrooms.
    pub open spec fn listing(self, stored: Option<Seq<ClassroomModel>>) -> Result<
        Seq<Seq<char>>,
        DirectoryError,
    > {
        if !(self is Ready) {
            Err(DirectoryError::NotInitialized)
        } else {
            match stored {
                Some(classrooms) => Ok(classroom_names(classrooms)),
                None => Err(DirectoryError::Persistence),
            }
        }
    }

    /// The answer to a search for the classroom `name`, given what reading
    /// the classroom store returned.
    pub open spec fn search(self, name: Seq<char>, stored: Option<Seq<ClassroomModel>>) -> Result<
        ClassroomModel,
        DirectoryError,
    > {
        if !(self is Ready) {
            Err(DirectoryError::NotInitialized)
        } else {
            match stored {
                Some(classrooms) => match classroom_named(classrooms, name) {
                    Some(classroom) => Ok(classroom),
                    None => Err(DirectoryError::NotFound(Subject::Classroom)),
                },
                None => Err(DirectoryError::Persistence),
            }
        }
    }

    /// The answer to a request for the classroom `name`, given what reading
    /// the two stores returned. The image store is consulted only once the
    /// classroom has been found.
    pub open spec fn lookup(
        self,
        name: Seq<char>,
        stored_classrooms: Option<Seq<ClassroomModel>>,
        stored_images: Option<Seq<ImageModel>>,
    ) -> Result<ResolvedModel, DirectoryError> {
        match self.search(name, stored_classrooms) {
            Ok(classroom) => match stored_images {
                Some(images) => joined(classroom, images),
                None => Err(DirectoryError::Persistence),
            },
            Err(error) => Err(error),
        }
    }
}

/// The JSON text of an answer: that of its document, or its error.
pub open spec fn rendered(answer: Result<JsonDoc, DirectoryError>) -> Result<
    Seq<char>,
    DirectoryError,
> {
    match answer {
        Ok(doc) => Ok(json_text(doc)),
        Err(error) => Err(error),
    }
}

/// The JSON document of a list of names, or its error.
pub open spec fn listing_doc(answer: Result<Seq<Seq<char>>, DirectoryError>) -> Result<
    JsonDoc,
    DirectoryError,
> {
    match answer {
        Ok(names) => Ok(JsonDoc::of_texts(names)),
        Err(error) => Err(error),
    }
}

/// The JSON document of a resolved classroom, or its error.
pub open spec fn classroom_doc(answer: Result<ResolvedModel, DirectoryError>) -> Result<
    JsonDoc,
    DirectoryError,
> {
    match answer {
        Ok(classroom) => Ok(classroom.to_json()),
        Err(error) => Err(error),
    }
}

/// Decodes two parsed payloads into the records to store.
pub fn decode_payloads(classroom_doc: &Option<JsonValue>, image_doc: &Option<JsonValue>)
    -> (outcome: Result<(Vec<ImageRecord>, Vec<ClassroomRecord>), DirectoryError>)
    ensures
        outcome_view(outcome) == decoded_payloads(classroom_doc.deep_view(), image_doc.deep_view()),
{
    match (classroom_doc, image_doc) {
        (Some(classroom_doc), Some(image_doc)) => {
            match (
                ImageRecord::list_from_json(image_doc),
                ClassroomRecord::list_from_json(classroom_doc),
            ) {
                (Some(images), Some(classrooms)) => Ok((images, classrooms)),
                _ => Err(DirectoryError::Parse),
            }
        },
        _ => Err(DirectoryError::Parse),
    }
}

/// Where a directory stands, with what a reload under way still has to
/// hand over.
#[derive(Debug)]
enum Phase {
    Uninitialized,
    Ready,
    Probing { classroom_data: String, image_data: String, resume: bool },
    WritingImages { classrooms: Vec<ClassroomRecord>, resume: bool },
    WritingClassrooms { resume: bool },
}

/// The navigation directory: it decides what is loaded into the record store
/// and answers reads from what the store returns. Reads are served only
/// between reloads.
#[derive(Debug)]
pub struct DBClient {
    phase: Phase,
}

impl View for DBClient {
    type V = DirectoryState;

    closed spec fn view(&self) -> DirectoryState {
        match self.phase {
            Phase::Uninitialized => DirectoryState::Uninitialized,
            Phase::Ready => DirectoryState::Ready,
            Phase::Probing { classroom_data, image_data, resume } => DirectoryState::Probing {
                classroom_data: classroom_data@,
                image_data: image_data@,
                resume,
            },
            Phase::WritingImages { classrooms, resume } => DirectoryState::WritingImages {
                classrooms: classrooms.deep_view(),
                resume,
            },
            Phase::WritingClassrooms { resume } => DirectoryState::WritingClassrooms { resume },
        }
    }
}

/// The phase that a failed reload falls back to.
fn fallback(resume: bool) -> (phase: Phase)
    ensures
        (DBClient { phase })@ == DirectoryState::fallback(resume),
{
    if resume {
        Phase::Ready
    } else {
        Phase::Uninitialized
    }
}

impl DBClient {
    /// A directory into which nothing has been loaded.
    pub fn uninitialized() -> (client: DBClient)
        ensures
            client@ == DirectoryState::Uninitialized,
    {
        DBClient { phase: Phase::Uninitialized }
    }

    /// A directory with a first load of the two payloads under way. Its first
    /// step is [`Step::Probe`]; it waits for the reply to that.
    pub fn new(classroom_data: String, image_data: String) -> (client: DBClient)
        ensures
            client@ == DirectoryState::Uninitialized.begin(classroom_data@, image_data@),
    {
        DBClient { phase: Phase::Probing { classroom_data, image_data, resume: false } }
    }

    /// Begins a reload of the two payloads and names its first step, the
    /// probe. A reload that was under way is given up.
    pub fn initialize(&mut self, classroom_data: String, image_data: String) -> (step: Step)
        ensures
            final(self)@ == old(self)@.begin(classroom_data@, image_data@),
            step@ == StepModel::Probe,
    {
        let resume = match &self.phase {
            Phase::Uninitialized => false,
            Phase::Ready => true,
            Phase::Probing { resume, .. } => *resume,
            Phase::WritingImages { resume, .. } => *resume,
            Phase::WritingClassrooms { resume } => *resume,
        };
        self.phase = Phase::Probing { classroom_data, image_data, resume };
        Step::Probe
    }

    /// Whether the directory serves reads.
    pub fn is_ready(&self) -> (ready: bool)
        ensures
            ready == (self@ is Ready),
    {
        match &self.phase {
            Phase::Ready => true,
            _ => false,
        }
    }

    /// Takes the store's reply to the step that was named last and names the
    /// next one.
    pub fn advance(&mut self, reply: StoreReply) -> (step: Step)
        ensures
            (final(self)@, step@) == old(self)@.next(reply),
    {
        let mut phase = Phase::Uninitialized;
        core::mem::swap(&mut self.phase, &mut phase);
        let succeeded = match reply {
            StoreReply::Succeeded => true,
            StoreReply::Failed => false,
        };
        match phase {
            Phase::Uninitialized => Step::Failed(DirectoryError::NotInitialized),
            Phase::Ready => {
                self.phase = Phase::Ready;
                Step::Ready
            },
            Phase::Probing { classroom_data, image_data, resume } => {
                if !succeeded {
                    self.phase = fallback(resume);
                    return Step::Failed(DirectoryError::Connectivity);
                }
                let classroom_doc = JsonValue::parse(classroom_data.as_str());
                let image_doc = JsonValue::parse(image_data.as_str());
                match decode_payloads(&classroom_doc, &image_doc) {
                    Ok((images, classrooms)) => {
                        if all_images_keyed(&images) {
                            self.phase = Phase::WritingImages { classrooms, resume };
                            Step::ReplaceImages(images)
                        } else {
                            self.phase = fallback(resume);
                            Step::Failed(DirectoryError::Persistence)
                        }
                    },
                    Err(error) => {
                        self.phase = fallback(resume);
                        Step::Failed(error)
                    },
                }
            },
            Phase::WritingImages { classrooms, resume } => {
                if succeeded && all_classrooms_keyed(&classrooms) {
                    self.phase = Phase::WritingClassrooms { resume };
                    Step::ReplaceClassrooms(classrooms)
                } else {
                    self.phase = fallback(resume);
                    Step::Failed(DirectoryError::Persistence)
                }
            },
            Phase::WritingClassrooms { resume } => {
                if succeeded {
                    self.phase = Phase::Ready;
                    Step::Ready
                } else {
                    self.phase = fallback(resume);
                    Step::Failed(DirectoryError::Persistence)
                }
            },
        }
    }

    /// The names of all classrooms, in the order in which the store returned
    /// them. `stored` is what reading the classroom store returned, nothing
    /// where the read failed.
    pub fn list_classrooms(&self, stored: Option<&Vec<ClassroomRecord>>) -> (outcome: Result<
        Vec<String>,
        DirectoryError,
    >)
        ensures
            outcome_view(outcome) == self@.listing(stored.deep_view()),
    {
        if !self.is_ready() {
            return Err(DirectoryError::NotInitialized);
        }
        match stored {
            Some(classrooms) => Ok(list_classroom_names(classrooms)),
            None => Err(DirectoryError::Persistence),
        }
    }

    /// The classroom with the given name, exactly as it is stored.
    pub fn find_classroom(&self, name: &str, stored: Option<&Vec<ClassroomRecord>>) -> (outcome:
        Result<ClassroomRecord, DirectoryError>)
        ensures
            outcome_view(outcome) == self@.search(name@, stored.deep_view()),
    {
        if !self.is_ready() {
            return Err(DirectoryError::NotInitialized);
        }
        match stored {
            Some(classrooms) => match find_classroom(classrooms, name) {
                Some(classroom) => Ok(classroom.clone()),
                None => Err(DirectoryError::NotFound(Subject::Classroom)),
            },
            None => Err(DirectoryError::Persistence),
        }
    }

    /// The classroom with the given name, joined with its images.
    /// `stored_classrooms` and `stored_images` are what reading the two
    /// stores returned, nothing where a read failed.
    pub fn get_classroom(
        &self,
        name: &str,
        stored_classrooms: Option<&Vec<ClassroomRecord>>,
        stored_images: Option<&Vec<ImageRecord>>,
    ) -> (outcome: Result<ResolvedClassroom, DirectoryError>)
        ensures
            outcome_view(outcome) == self@.lookup(
                name@,
                stored_classrooms.deep_view(),
                stored_images.deep_view(),
            ),
            self@ is Ready && stored_classrooms is Some && no_classroom_named(
                stored_classrooms.deep_view()->Some_0,
                name@,
            ) ==> outcome_view(outcome) == Err::<ResolvedModel, _>(
                DirectoryError::NotFound(Subject::Classroom),
            ),
    {
        if !self.is_ready() {
            return Err(DirectoryError::NotInitialized);
        }
        proof {
            if let Some(classrooms) = stored_classrooms.deep_view() {
                if no_classroom_named(classrooms, name@) {
                    lemma_unknown_classroom(classrooms, Seq::empty(), name@);
                }
            }
        }
        match stored_classrooms {
            Some(classrooms) => match find_classroom(classrooms, name) {
                Some(classroom) => match stored_images {
                    Some(images) => resolve_classroom(classroom, images),
                    None => Err(DirectoryError::Persistence),
                },
                None => Err(DirectoryError::NotFound(Subject::Classroom)),
            },
            None => Err(DirectoryError::Persistence),
        }
    }

    /// The list of classroom names as a JSON array of strings.
    pub fn get_classroom_list(&self, stored: Option<&Vec<ClassroomRecord>>) -> (outcome: Result<
        String,
        DirectoryError,
    >)
        ensures
            outcome_view(outcome) == rendered(listing_doc(self@.listing(stored.deep_view()))),
    {
        match self.list_classrooms(stored) {
            Ok(names) => {
                let list = JsonValue::of_texts(&names);
                proof {
                    lemma_texts_nested(names.deep_view());
                    lemma_nested_within_more(list@, 1, MAX_NESTING as nat);
                }
                Ok(render_document(&list))
            },
            Err(error) => Err(error),
        }
    }

    /// The classroom with the given name, joined with its images, as a JSON
    /// object with the members `classroom`, `description` and `images`.
    pub fn get_classroom_data(
        &self,
        classroom_name: String,
        stored_classrooms: Option<&Vec<ClassroomRecord>>,
        stored_images: Option<&Vec<ImageRecord>>,
    ) -> (outcome: Result<String, DirectoryError>)
        ensures
            outcome_view(outcome) == rendered(
                classroom_doc(
                    self@.lookup(
                        classroom_name@,
                        stored_classrooms.deep_view(),
                        stored_images.deep_view(),
                    ),
                ),
            ),
    {
        match self.get_classroom(classroom_name.as_str(), stored_classrooms, stored_images) {
            Ok(classroom) => {
                let object = classroom.to_json();
                proof {
                    lemma_classroom_nested(classroom@);
                    lemma_nested_within_more(object@, 2, MAX_NESTING as nat);
                }
                Ok(render_document(&object))
            },
            Err(error) => Err(error),
        }
    }
}

} // verus!
