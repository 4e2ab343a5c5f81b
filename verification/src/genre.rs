//! The genre question: a fixed list of choices, and where its cursor starts.

use vstd::prelude::*;
use vstd::string::*;
use crate::text::opt_text;

verus! {

/// The genres on offer, in the order in which they are shown.
pub open spec fn genres() -> Seq<Seq<char>> {
    seq![
        "Video Game"@,
        "Classical"@,
        "Jazz"@,
        "Rock"@,
        "Metal"@,
        "Electronic"@,
        "Funk"@,
        "Soundtrack"@,
        "Other"@,
    ]
}

/// Where the cursor starts: on the genre chosen last time where it is still
/// on offer, else on the first genre.
pub open spec fn starting_cursor(preselect: Option<Seq<char>>) -> int {
    match preselect {
        Some(genre) => match genres().index_of_first(genre) {
            Some(i) => i,
            None => 0,
        },
        None => 0,
    }
}

/// A question with a fixed list of answers.
#[derive(Clone, Debug, PartialEq, Eq)]
pub struct SelectPrompt {
    /// The question.
    pub message: String,
    /// The answers on offer.
    pub choices: Vec<String>,
    /// The answer that the cursor starts on.
    pub starting_cursor: usize,
}

/// A question with a fixed list of answers as the contracts see it.
pub struct SelectModel {
    pub message: Seq<char>,
    pub choices: Seq<Seq<char>>,
    pub starting_cursor: int,
}

impl View for SelectPrompt {
    type V = SelectModel;

    open spec fn view(&self) -> SelectModel {
        SelectModel {
            message: self.message@,
            choices: self.choices.deep_view(),
            starting_cursor: self.starting_cursor as int,
        }
    }
}

/// The genre question for an album whose genre was `preselect` last time.
pub open spec fn genre_question(preselect: Option<Seq<char>>) -> SelectModel {
    SelectModel {
        message: "Select genre:"@,
        choices: genres(),
        starting_cursor: starting_cursor(preselect),
    }
}

/// The cursor always starts on one of the genres; on the chosen one where it
/// is on offer, and on the first one otherwise.
pub proof fn law_cursor_is_on_a_genre(preselect: Option<Seq<char>>)
    ensures
        0 <= starting_cursor(preselect) < genres().len(),
        preselect is Some && genres().contains(preselect->0) ==> genres()[starting_cursor(
            preselect,
        )] == preselect->0,
        !(preselect is Some && genres().contains(preselect->0)) ==> starting_cursor(preselect)
            == 0,
{
    if let Some(genre) = preselect {
        genres().index_of_first_ensures(genre);
    }
}

/// The genres on offer.
pub fn genre_choices() -> (out: Vec<String>)
    ensures
        out.deep_view() == genres(),
{
    let mut out: Vec<String> = Vec::new();
    out.push(String::from_str("Video Game"));
    out.push(String::from_str("Classical"));
    out.push(String::from_str("Jazz"));
    out.push(String::from_str("Rock"));
    out.push(String::from_str("Metal"));
    out.push(String::from_str("Electronic"));
    out.push(String::from_str("Funk"));
    out.push(String::from_str("Soundtrack"));
    out.push(String::from_str("Other"));
    assert(out.deep_view() =~= genres());
    out
}

/// The place of `genre` among `choices`, or 0 where it is not among them.
pub fn cursor_among(choices: &Vec<String>, genre: &str) -> (out: usize)
    ensures
        out as int == match choices.deep_view().index_of_first(genre@) {
            Some(i) => i,
            None => 0,
        },
{
    let wanted = genre.to_owned();
    let ghost list = choices.deep_view();
    let mut i: usize = 0;
    while i < choices.len()
        invariant
            i <= choices.len(),
            list == choices.deep_view(),
            wanted@ == genre@,
            forall|j: int| 0 <= j < i ==> list[j] != genre@,
        decreases choices.len() - i,
    {
        if choices[i] == wanted {
            proof {
                list.index_of_first_ensures(genre@);
                assert(list[i as int] == genre@);
                assert(list.contains(genre@));
            }
            return i;
        }
        i = i + 1;
    }
    proof {
        list.index_of_first_ensures(genre@);
        if list.contains(genre@) {
            let j = choose|j: int| 0 <= j < list.len() && list[j] == genre@;
            assert(list[j] != genre@);
        }
    }
    0
}

/// Where the cursor of the genre question starts.
pub fn genre_cursor(preselect: &Option<String>) -> (out: usize)
    ensures
        out as int == starting_cursor(opt_text(*preselect)),
        out < 9,
{
    proof {
        law_cursor_is_on_a_genre(opt_text(*preselect));
    }
    match preselect {
        Some(genre) => {
            let choices = genre_choices();
            cursor_among(&choices, genre.as_str())
        },
        None => 0,
    }
}

/// The genre question, with the cursor on the genre chosen last time.
pub fn select_genre(preselect: &Option<String>) -> (out: SelectPrompt)
    ensures
        out@ == genre_question(opt_text(*preselect)),
        out.starting_cursor < out.choices.len(),
{
    let starting_cursor = genre_cursor(preselect);
    let choices = genre_choices();
    assert(choices.deep_view().len() == 9);
    SelectPrompt { message: String::from_str("Select genre:"), choices, starting_cursor }
}

} // verus!
