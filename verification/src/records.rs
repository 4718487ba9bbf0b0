//! The records of the two stores, the joined record handed to clients, and
//! their JSON forms.
//!
//! The name of a record is its key. A record with an empty name cannot be
//! stored. Names are meant to be unique within a store, but nothing insists
//! on it: a payload that has a name twice stores both records, both are
//! listed, and a lookup by name takes the first in store order.

use crate::json::{lemma_texts_nested, JsonDoc, JsonValue};
use crate::search::first_match;
use vstd::prelude::*;

verus! {

/// An image of the campus: its name, which is its key in the image store, and
/// its encoded payload.
#[derive(Debug, PartialEq, Eq)]
pub struct ImageRecord {
    pub name: String,
    pub payload: String,
}

/// A classroom: its name, which is its key in the classroom store, a
/// description, and the names of the images that show the way to it, in the
/// order in which they are to be shown.
#[derive(Debug, PartialEq, Eq)]
pub struct ClassroomRecord {
    pub name: String,
    pub description: String,
    pub image_refs: Vec<String>,
}

/// A classroom whose image references have been replaced by the payloads of
/// the images they name.
#[derive(Debug, PartialEq, Eq)]
pub struct ResolvedClassroom {
    pub name: String,
    pub description: String,
    pub images: Vec<String>,
}

/// The mathematical model of an [`ImageRecord`].
pub ghost struct ImageModel {
    pub name: Seq<char>,
    pub payload: Seq<char>,
}

/// The mathematical model of a [`ClassroomRecord`].
pub ghost struct ClassroomModel {
    pub name: Seq<char>,
    pub description: Seq<char>,
    pub image_refs: Seq<Seq<char>>,
}

/// The mathematical model of a [`ResolvedClassroom`].
pub ghost struct ResolvedModel {
    pub name: Seq<char>,
    pub description: Seq<char>,
    pub images: Seq<Seq<char>>,
}

impl View for ImageRecord {
    type V = ImageModel;

    open spec fn view(&self) -> ImageModel {
        ImageModel { name: self.name@, payload: self.payload@ }
    }
}

impl DeepView for ImageRecord {
    type V = ImageModel;

    open spec fn deep_view(&self) -> ImageModel {
        self@
    }
}

impl View for ClassroomRecord {
    type V = ClassroomModel;

    open spec fn view(&self) -> ClassroomModel {
        ClassroomModel {
            name: self.name@,
            description: self.description@,
            image_refs: self.image_refs.deep_view(),
        }
    }
}

impl DeepView for ClassroomRecord {
    type V = ClassroomModel;

    open spec fn deep_view(&self) -> ClassroomModel {
        self@
    }
}

impl View for ResolvedClassroom {
    type V = ResolvedModel;

    open spec fn view(&self) -> ResolvedModel {
        ResolvedModel {
            name: self.name@,
            description: self.description@,
            images: self.images.deep_view(),
        }
    }
}

impl DeepView for ResolvedClassroom {
    type V = ResolvedModel;

    open spec fn deep_view(&self) -> ResolvedModel {
        self@
    }
}

impl Clone for ImageRecord {
    fn clone(&self) -> (copy: Self)
        ensures
            copy@ == self@,
    {
        ImageRecord { name: self.name.clone(), payload: self.payload.clone() }
    }
}

impl Clone for ClassroomRecord {
    fn clone(&self) -> (copy: Self)
        ensures
            copy@ == self@,
    {
        ClassroomRecord {
            name: self.name.clone(),
            description: self.description.clone(),
            image_refs: copy_texts(&self.image_refs),
        }
    }
}

impl Clone for ResolvedClassroom {
    fn clone(&self) -> (copy: Self)
        ensures
            copy@ == self@,
    {
        ResolvedClassroom {
            name: self.name.clone(),
            description: self.description.clone(),
            images: copy_texts(&self.images),
        }
    }
}

/// The records that the elements of a JSON array decode to: all of them, in
/// order, or nothing where one element does not decode.
pub open spec fn decode_each<T>(items: Seq<JsonDoc>, decode: spec_fn(JsonDoc) -> Option<T>)
    -> Option<Seq<T>> {
    if forall|i: int| 0 <= i < items.len() ==> decode(#[trigger] items[i]) is Some {
        Some(Seq::new(items.len(), |i: int| decode(items[i])->Some_0))
    } else {
        None
    }
}

impl ImageModel {
    /// The image that a JSON object with the string members `image_name` and
    /// `image` describes. Other members are ignored.
    pub open spec fn from_json(doc: JsonDoc) -> Option<ImageModel> {
        match (doc.text_at("image_name"@), doc.text_at("image"@)) {
            (Some(name), Some(payload)) => Some(ImageModel { name, payload }),
            _ => None,
        }
    }

    /// The images that a JSON array of image objects describes.
    pub open spec fn list_from_json(doc: JsonDoc) -> Option<Seq<ImageModel>> {
        match doc {
            JsonDoc::Array(items) => decode_each(
                items,
                |item: JsonDoc| ImageModel::from_json(item),
            ),
            _ => None,
        }
    }

    /// Whether the image can be stored: its key is not empty.
    pub open spec fn keyed(self) -> bool {
        self.name.len() > 0
    }
}

impl ClassroomModel {
    /// The classroom that a JSON object with the string members `classroom`
    /// and `description` and the member `images`, an array of strings,
    /// describes. Other members are ignored.
    pub open spec fn from_json(doc: JsonDoc) -> Option<ClassroomModel> {
        match (
            doc.text_at("classroom"@),
            doc.text_at("description"@),
            doc.text_list_at("images"@),
        ) {
            (Some(name), Some(description), Some(image_refs)) => Some(
                ClassroomModel { name, description, image_refs },
            ),
            _ => None,
        }
    }

    /// The classrooms that a JSON array of classroom objects describes.
    pub open spec fn list_from_json(doc: JsonDoc) -> Option<Seq<ClassroomModel>> {
        match doc {
            JsonDoc::Array(items) => decode_each(
                items,
                |item: JsonDoc| ClassroomModel::from_json(item),
            ),
            _ => None,
        }
    }

    /// Whether the classroom can be stored: its key is not empty.
    pub open spec fn keyed(self) -> bool {
        self.name.len() > 0
    }
}

impl ResolvedModel {
    /// The JSON object that is sent to a client: the members `classroom`,
    /// `description` and `images`, in this order.
    pub open spec fn to_json(self) -> JsonDoc {
        JsonDoc::Object(
            seq![
                ("classroom"@, JsonDoc::String(self.name)),
                ("description"@, JsonDoc::String(self.description)),
                ("images"@, JsonDoc::of_texts(self.images)),
            ],
        )
    }
}

/// The JSON object of a resolved classroom reads back as a classroom that
/// has the payloads where the references were: writing and reading agree on
/// the members of a classroom.
pub proof fn lemma_json_form_reads_back(resolved: ResolvedModel)
    ensures
        ClassroomModel::from_json(resolved.to_json()) == Some(
            ClassroomModel {
                name: resolved.name,
                description: resolved.description,
                image_refs: resolved.images,
            },
        ),
{
    reveal_strlit("classroom");
    reveal_strlit("description");
    reveal_strlit("images");
    reveal_with_fuel(first_match, 4);
    let doc = resolved.to_json();
    let members = doc->Object_0;
    assert(members.skip(1)[0] == members[1]);
    assert(members.skip(1).skip(1)[0] == members[2]);
    assert("classroom"@.len() != "description"@.len());
    assert("classroom"@.len() != "images"@.len());
    assert("description"@.len() != "images"@.len());
    assert(doc.text_at("classroom"@) == Some(resolved.name));
    assert(doc.text_at("description"@) == Some(resolved.description));
    assert(doc.member("images"@) == Some(JsonDoc::of_texts(resolved.images)));
    assert(JsonDoc::of_texts(resolved.images).text_list()->Some_0 =~= resolved.images);
}

/// The JSON object of a resolved classroom is nested 2 deep.
pub proof fn lemma_classroom_nested(resolved: ResolvedModel)
    ensures
        resolved.to_json().nested_within(2),
{
    lemma_texts_nested(resolved.images);
    let members = resolved.to_json()->Object_0;
    assert forall|i: int| 0 <= i < members.len() implies (#[trigger] members[i]).1.nested_within(
        1,
    ) by {
        if i == 2 {
            assert(members[i].1 == JsonDoc::of_texts(resolved.images));
        }
    }
}

/// Whether every image can be stored.
pub open spec fn images_keyed(images: Seq<ImageModel>) -> bool {
    forall|i: int| 0 <= i < images.len() ==> (#[trigger] images[i]).keyed()
}

/// Whether every classroom can be stored.
pub open spec fn classrooms_keyed(classrooms: Seq<ClassroomModel>) -> bool {
    forall|i: int| 0 <= i < classrooms.len() ==> (#[trigger] classrooms[i]).keyed()
}

/// The names of the classrooms, in their order.
pub open spec fn classroom_names(classrooms: Seq<ClassroomModel>) -> Seq<Seq<char>> {
    classrooms.map_values(|classroom: ClassroomModel| classroom.name)
}

/// A copy of the texts.
pub fn copy_texts(texts: &Vec<String>) -> (copy: Vec<String>)
    ensures
        copy.deep_view() == texts.deep_view(),
{
    let mut copy: Vec<String> = Vec::new();
    let mut i: usize = 0;
    while i < texts.len()
        invariant
            i <= texts.len(),
            copy.len() == i,
            forall|j: int| 0 <= j < i ==> (#[trigger] copy[j])@ == texts[j]@,
        decreases texts.len() - i,
    {
        copy.push(texts[i].clone());
        i += 1;
    }
    assert(copy.deep_view() =~= texts.deep_view());
    copy
}

impl ImageRecord {
    /// Reads an image out of a JSON object.
    pub fn from_json(value: &JsonValue) -> (record: Option<ImageRecord>)
        ensures
            record.deep_view() == ImageModel::from_json(value@),
    {
        match (value.text_at("image_name"), value.text_at("image")) {
            (Some(name), Some(payload)) => Some(
                ImageRecord { name: name.clone(), payload: payload.clone() },
            ),
            _ => None,
        }
    }

    /// Reads the images out of a JSON array of image objects.
    pub fn list_from_json(value: &JsonValue) -> (records: Option<Vec<ImageRecord>>)
        ensures
            records.deep_view() == ImageModel::list_from_json(value@),
    {
        match value.items() {
            None => None,
            Some(items) => {
                let ghost docs = items.deep_view();
                let mut records: Vec<ImageRecord> = Vec::new();
                let mut i: usize = 0;
                while i < items.len()
                    invariant
                        i <= items.len(),
                        docs == items.deep_view(),
                        value@ == JsonDoc::Array(docs),
                        records.len() == i,
                        forall|j: int|
                            0 <= j < i ==> ImageModel::from_json(#[trigger] docs[j]) == Some(
                                records[j]@,
                            ),
                    decreases items.len() - i,
                {
                    match ImageRecord::from_json(&items[i]) {
                        Some(record) => {
                            records.push(record);
                        },
                        None => {
                            assert(ImageModel::from_json(docs[i as int]) is None);
                            return None;
                        },
                    }
                    i += 1;
                }
                assert(records.deep_view() =~= ImageModel::list_from_json(value@)->Some_0);
                Some(records)
            },
        }
    }

    /// Whether the image can be stored: its key is not empty.
    pub fn is_keyed(&self) -> (keyed: bool)
        ensures
            keyed == self@.keyed(),
    {
        !self.name.as_str().is_empty()
    }
}

impl ClassroomRecord {
    /// Reads a classroom out of a JSON object.
    pub fn from_json(value: &JsonValue) -> (record: Option<ClassroomRecord>)
        ensures
            record.deep_view() == ClassroomModel::from_json(value@),
    {
        match (value.text_at("classroom"), value.text_at("description")) {
            (Some(name), Some(description)) => match value.text_list_at("images") {
                Some(image_refs) => Some(
                    ClassroomRecord {
                        name: name.clone(),
                        description: description.clone(),
                        image_refs,
                    },
                ),
                None => None,
            },
            _ => None,
        }
    }

    /// Reads the classrooms out of a JSON array of classroom objects.
    pub fn list_from_json(value: &JsonValue) -> (records: Option<Vec<ClassroomRecord>>)
        ensures
            records.deep_view() == ClassroomModel::list_from_json(value@),
    {
        match value.items() {
            None => None,
            Some(items) => {
                let ghost docs = items.deep_view();
                let mut records: Vec<ClassroomRecord> = Vec::new();
                let mut i: usize = 0;
                while i < items.len()
                    invariant
                        i <= items.len(),
                        docs == items.deep_view(),
                        value@ == JsonDoc::Array(docs),
                        records.len() == i,
                        forall|j: int|
                            0 <= j < i ==> ClassroomModel::from_json(#[trigger] docs[j]) == Some(
                                records[j]@,
                            ),
                    decreases items.len() - i,
                {
                    match ClassroomRecord::from_json(&items[i]) {
                        Some(record) => {
                            records.push(record);
                        },
                        None => {
                            assert(ClassroomModel::from_json(docs[i as int]) is None);
                            return None;
                        },
                    }
                    i += 1;
                }
                assert(records.deep_view() =~= ClassroomModel::list_from_json(value@)->Some_0);
                Some(records)
            },
        }
    }

    /// Whether the classroom can be stored: its key is not empty.
    pub fn is_keyed(&self) -> (keyed: bool)
        ensures
            keyed == self@.keyed(),
    {
        !self.name.as_str().is_empty()
    }
}

impl ResolvedClassroom {
    /// The JSON object that is sent to a client.
    pub fn to_json(&self) -> (value: JsonValue)
        ensures
            value@ == self@.to_json(),
    {
        let name = JsonValue::String(self.name.clone());
        let description = JsonValue::String(self.description.clone());
        let images = JsonValue::of_texts(&self.images);
        assert(name@ == JsonDoc::String(self.name@));
        assert(description@ == JsonDoc::String(self.description@));
        let mut members: Vec<(String, JsonValue)> = Vec::new();
        members.push(("classroom".to_owned(), name));
        members.push(("description".to_owned(), description));
        members.push(("images".to_owned(), images));
        let value = JsonValue::Object(members);
        assert(value@->Object_0 =~= self@.to_json()->Object_0);
        value
    }
}

/// Whether every image can be stored.
pub fn all_images_keyed(images: &Vec<ImageRecord>) -> (keyed: bool)
    ensures
        keyed == images_keyed(images.deep_view()),
{
    let mut i: usize = 0;
    while i < images.len()
        invariant
            i <= images.len(),
            forall|j: int| 0 <= j < i ==> (#[trigger] images.deep_view()[j]).keyed(),
        decreases images.len() - i,
    {
        if !images[i].is_keyed() {
            assert(!images.deep_view()[i as int].keyed());
            return false;
        }
        i += 1;
    }
    true
}

/// Whether every classroom can be stored.
pub fn all_classrooms_keyed(classrooms: &Vec<ClassroomRecord>) -> (keyed: bool)
    ensures
        keyed == classrooms_keyed(classrooms.deep_view()),
{
    let mut i: usize = 0;
    while i < classrooms.len()
        invariant
            i <= classrooms.len(),
            forall|j: int| 0 <= j < i ==> (#[trigger] classrooms.deep_view()[j]).keyed(),
        decreases classrooms.len() - i,
    {
        if !classrooms[i].is_keyed() {
            assert(!classrooms.deep_view()[i as int].keyed());
            return false;
        }
        i += 1;
    }
    true
}

} // verus!
