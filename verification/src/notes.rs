//! The notes of the practice server: its store, and the requests to it.

use crate::request::{ApiRequest, Method};
use crate::text::{decimal, push_decimal};
use vstd::prelude::*;
use vstd::string::*;

verus! {

/// A note of the practice server: a message, and the number that the server gave it.
#[derive(Debug, PartialEq, Eq)]
pub struct Note {
    pub id: Option<usize>,
    pub message: String,
}

/// What a `Note` holds.
pub struct NoteView {
    pub id: Option<usize>,
    pub message: Seq<char>,
}

impl View for Note {
    type V = NoteView;

    open spec fn view(&self) -> NoteView {
        NoteView { id: self.id, message: self.message@ }
    }
}

impl Clone for Note {
    fn clone(&self) -> (res: Self)
        ensures
            res@ == self@,
    {
        Note { id: self.id, message: self.message.clone() }
    }
}

/// The views of a list of notes.
pub open spec fn notes_view(notes: Seq<Note>) -> Seq<NoteView> {
    Seq::new(notes.len(), |i: int| notes[i]@)
}

/// The status `200 OK`.
pub const OK: u16 = 200;

/// The status `201 Created`.
pub const CREATED: u16 = 201;

/// The status `400 Bad Request`.
pub const BAD_REQUEST: u16 = 400;

/// The status `404 Not Found`.
pub const NOT_FOUND: u16 = 404;

/// The notes that the practice server keeps. A note's number is its place in the list.
#[derive(Debug)]
pub struct NoteStore {
    notes: Vec<Note>,
}

impl View for NoteStore {
    type V = Seq<NoteView>;

    closed spec fn view(&self) -> Seq<NoteView> {
        notes_view(self.notes@)
    }
}

impl NoteStore {
    /// A store without notes.
    pub fn new() -> (store: NoteStore)
        ensures
            store@ == Seq::<NoteView>::empty(),
    {
        let store = NoteStore { notes: Vec::new() };
        assert(store@ =~= Seq::<NoteView>::empty());
        store
    }

    /// Takes in a new note. A note that already has a number is refused; any
    /// other gets the next number and is kept.
    pub fn create_note(&mut self, note: Note) -> (res: (u16, Option<Note>))
        ensures
            note.id is Some ==> res.0 == BAD_REQUEST && res.1 is None && final(self)@ == old(
                self,
            )@,
            note.id is None ==> {
                let kept = NoteView { id: Some(old(self)@.len() as usize), message: note.message@ };
                &&& old(self)@.len() <= usize::MAX
                &&& res.0 == CREATED
                &&& res.1 matches Some(n) && n@ == kept
                &&& final(self)@ == old(self)@.push(kept)
            },
    {
        if note.id.is_some() {
            (BAD_REQUEST, None)
        } else {
            let id = self.notes.len();
            let kept = Note { id: Some(id), message: note.message };
            let answer = kept.clone();
            self.notes.push(kept);
            assert(self@ =~= old(self)@.push(answer@));
            (CREATED, Some(answer))
        }
    }

    /// All notes, in the order of their numbers.
    pub fn get_notes(&self) -> (notes: Vec<Note>)
        ensures
            notes_view(notes@) == self@,
    {
        let mut notes: Vec<Note> = Vec::new();
        let mut i: usize = 0;
        while i < self.notes.len()
            invariant
                0 <= i <= self.notes.len(),
                notes@.len() == i,
                forall|k: int| 0 <= k < i ==> notes@[k]@ == self.notes@[k]@,
            decreases self.notes.len() - i,
        {
            notes.push(self.notes[i].clone());
            i += 1;
        }
        assert(notes_view(notes@) =~= self@);
        notes
    }

    /// The note with the given number.
    pub fn get_note_by_id(&self, id: usize) -> (res: (u16, Option<Note>))
        ensures
            id < self@.len() ==> res.0 == OK && (res.1 matches Some(n) && n@ == self@[id as int]),
            id >= self@.len() ==> res.0 == NOT_FOUND && res.1 is None,
    {
        if id < self.notes.len() {
            (OK, Some(self.notes[id].clone()))
        } else {
            (NOT_FOUND, None)
        }
    }

    /// Replaces the message of the note with the given number by that of
    /// `note`, and answers with `note` as it came.
    pub fn update_note_by_id(&mut self, id: usize, note: Note) -> (res: (u16, Option<Note>))
        ensures
            id < old(self)@.len() ==> res.0 == OK && (res.1 matches Some(n) && n@ == note@)
                && final(self)@ == old(self)@.update(
                id as int,
                NoteView { id: old(self)@[id as int].id, message: note.message@ },
            ),
            id >= old(self)@.len() ==> res.0 == NOT_FOUND && res.1 is None && final(self)@ == old(
                self,
            )@,
    {
        if id < self.notes.len() {
            let number = self.notes[id].id;
            self.notes.set(id, Note { id: number, message: note.message.clone() });
            assert(self@ =~= old(self)@.update(
                id as int,
                NoteView { id: old(self)@[id as int].id, message: note.message@ },
            ));
            (OK, Some(note))
        } else {
            (NOT_FOUND, None)
        }
    }
}

/// The address of the practice server's notes.
pub open spec fn notes_url() -> Seq<char> {
    "http://localhost:1937/notes"@
}

/// The address of the note with the given number.
pub open spec fn note_url(id: nat) -> Seq<char> {
    notes_url() + "/"@ + decimal(id)
}

fn note_address(id: usize) -> (url: String)
    ensures
        url@ == note_url(id as nat),
{
    let mut url = "http://localhost:1937/notes".to_owned();
    url.append("/");
    push_decimal(&mut url, id);
    url
}

/// A request without header fields.
pub open spec fn is_bare(request: ApiRequest, method: Method, url: Seq<char>) -> bool {
    &&& request.spec_method() == method
    &&& request.spec_url() == url
    &&& request.spec_headers() == Map::<Seq<char>, Seq<char>>::empty()
}

/// The request that hands a new note with this message to the practice
/// server, and the note to send with it.
pub fn register_note(message: String) -> (res: (ApiRequest, Note))
    ensures
        is_bare(res.0, Method::Post, notes_url()),
        res.1@ == (NoteView { id: None, message: message@ }),
{
    (ApiRequest::new(Method::Post, "http://localhost:1937/notes"), Note { id: None, message })
}

/// The request for all notes of the practice server.
pub fn get_notes() -> (request: ApiRequest)
    ensures
        is_bare(request, Method::Get, notes_url()),
{
    ApiRequest::new(Method::Get, "http://localhost:1937/notes")
}

/// The request for the note with the given number.
pub fn get_note_by_id(id: usize) -> (request: ApiRequest)
    ensures
        is_bare(request, Method::Get, note_url(id as nat)),
{
    let url = note_address(id);
    ApiRequest::new(Method::Get, url.as_str())
}

/// The request that gives the note with the given number a new message, and
/// the note to send with it.
pub fn update_note_by_id(id: usize, message: String) -> (res: (ApiRequest, Note))
    ensures
        is_bare(res.0, Method::Put, note_url(id as nat)),
        res.1@ == (NoteView { id: Some(id), message: message@ }),
{
    let url = note_address(id);
    (ApiRequest::new(Method::Put, url.as_str()), Note { id: Some(id), message })
}

} // verus!
