//! The inputs of a run and the rules that decide whether a run can start.

use vstd::prelude::*;

use crate::api::types::{opt_text, Team};
use crate::search::SearchOptions;

verus! {

/// The file that results are written to when no other is named.
pub const DEFAULT_OUTPUT: &'static str = "linsearch-results.md";

/// The inputs of one run.
#[derive(Debug, Clone, PartialEq, Eq)]
pub struct Args {
    /// Search term to look for.
    pub search_term: String,
    /// The API credential.
    pub api_key: Option<String>,
    /// Team to search within.
    pub team_id: Option<String>,
    /// Search in descriptions.
    pub descriptions: bool,
    /// Search in comments.
    pub comments: bool,
    /// Output file path.
    pub output: String,
    /// Show results in the terminal instead of saving them to the file.
    pub terminal: bool,
}

/// Why a run cannot start or go on: an input is missing or unusable.
#[derive(Clone, Copy, Debug, PartialEq, Eq, Structural)]
pub enum InputError {
    /// No credential was given.
    MissingApiKey,
    /// The credential that was given is empty.
    EmptyApiKey,
    /// The service knows no team to choose from.
    NoTeams,
    /// The team that was chosen is not among those on offer.
    InvalidTeamSelection,
    /// Neither descriptions nor comments are to be searched.
    NoSearchField,
}

impl InputError {
    /// The message of this error, as a person reads it.
    pub open spec fn message_text(self) -> Seq<char> {
        match self {
            InputError::MissingApiKey =>
                "API key required. Set LINEAR_API_KEY environment variable or use --api-key"@,
            InputError::EmptyApiKey => "API key is required"@,
            InputError::NoTeams => "No teams found"@,
            InputError::InvalidTeamSelection => "Selected team is not among the teams offered"@,
            InputError::NoSearchField => "Must search in at least descriptions or comments"@,
        }
    }

    /// Renders the message of this error.
    pub fn message(&self) -> (text: String)
        ensures
            text@ == self.message_text(),
    {
        match self {
            InputError::MissingApiKey => {
                let text =
                    "API key required. Set LINEAR_API_KEY environment variable or use --api-key";
                text.to_owned()
            },
            InputError::EmptyApiKey => "API key is required".to_owned(),
            InputError::NoTeams => "No teams found".to_owned(),
            InputError::InvalidTeamSelection =>
                "Selected team is not among the teams offered".to_owned(),
            InputError::NoSearchField =>
                "Must search in at least descriptions or comments".to_owned(),
        }
    }
}

/// The credential to use, or why there is none.
pub open spec fn credential_of(api_key: Option<Seq<char>>) -> Result<Seq<char>, InputError> {
    match api_key {
        None => Err(InputError::MissingApiKey),
        Some(key) => if key.len() == 0 {
            Err(InputError::EmptyApiKey)
        } else {
            Ok(key)
        },
    }
}

/// Whether a run may search with these fields switched on.
pub open spec fn fields_allowed(descriptions: bool, comments: bool) -> bool {
    descriptions || comments
}

impl Args {
    /// The credential of the run, exactly as it was given: a credential
    /// must be there and must not be empty.
    pub fn credential(&self) -> (r: Result<String, InputError>)
        ensures
            match r {
                Ok(key) => credential_of(opt_text(self.api_key)) == Ok::<
                    Seq<char>,
                    InputError,
                >(key@),
                Err(e) => credential_of(opt_text(self.api_key)) == Err::<
                    Seq<char>,
                    InputError,
                >(e),
            },
    {
        match &self.api_key {
            None => Err(InputError::MissingApiKey),
            Some(key) => {
                if key.as_str().is_empty() {
                    Err(InputError::EmptyApiKey)
                } else {
                    Ok(key.clone())
                }
            },
        }
    }

    /// Whether the team has yet to be chosen.
    pub fn needs_team_selection(&self) -> (b: bool)
        ensures
            b == (self.team_id is None),
    {
        self.team_id.is_none()
    }

    /// Whether the person has yet to be asked which fields to search:
    /// only when the inputs switched on neither.
    pub fn needs_field_prompt(&self) -> (b: bool)
        ensures
            b == !fields_allowed(self.descriptions, self.comments),
    {
        !self.descriptions && !self.comments
    }

    /// The search that these inputs ask for.
    pub fn search_options(&self) -> (options: SearchOptions)
        ensures
            options.search_term@ == self.search_term@,
            options.search_descriptions == self.descriptions,
            options.search_comments == self.comments,
    {
        SearchOptions::new(self.search_term.clone(), self.descriptions, self.comments)
    }
}

/// A search needs at least one of descriptions and comments.
pub fn check_search_fields(descriptions: bool, comments: bool) -> (r: Result<(), InputError>)
    ensures
        fields_allowed(descriptions, comments) ==> r == Ok::<(), InputError>(()),
        !fields_allowed(descriptions, comments) ==> r == Err::<(), InputError>(
            InputError::NoSearchField,
        ),
{
    if !descriptions && !comments {
        Err(InputError::NoSearchField)
    } else {
        Ok(())
    }
}

/// A team can only be chosen where there is one.
pub fn check_teams(teams: &Vec<Team>) -> (r: Result<(), InputError>)
    ensures
        teams@.len() > 0 ==> r == Ok::<(), InputError>(()),
        teams@.len() == 0 ==> r == Err::<(), InputError>(InputError::NoTeams),
{
    if teams.len() == 0 {
        Err(InputError::NoTeams)
    } else {
        Ok(())
    }
}

/// The first position at which `selection` stands among `options`.
pub open spec fn first_position(options: Seq<Seq<char>>, selection: Seq<char>) -> Option<int>
    decreases options.len(),
{
    if options.len() == 0 {
        None
    } else {
        match first_position(options.drop_last(), selection) {
            Some(i) => Some(i),
            None => if options.last() == selection {
                Some(options.len() - 1)
            } else {
                None
            },
        }
    }
}

/// The texts of a list of options.
pub open spec fn option_texts(options: Seq<String>) -> Seq<Seq<char>> {
    options.map_values(|o: String| o@)
}

/// Finds the team that a choice stands for. `options` holds one label per
/// team, in the order of `teams`; the team chosen is the one at the first
/// position whose label equals `selection`. A choice that is no label, or
/// whose position has no team, is refused.
pub fn selected_team_id(teams: &Vec<Team>, options: &Vec<String>, selection: &String) -> (r:
    Result<String, InputError>)
    ensures
        match first_position(option_texts(options@), selection@) {
            Some(i) => if i < teams@.len() {
                r is Ok && r->Ok_0@ == teams@[i].id@
            } else {
                r == Err::<String, InputError>(InputError::InvalidTeamSelection)
            },
            None => r == Err::<String, InputError>(InputError::InvalidTeamSelection),
        },
{
    let ghost texts = option_texts(options@);
    let mut i: usize = 0;
    while i < options.len()
        invariant
            i <= options.len(),
            texts == option_texts(options@),
            first_position(texts.take(i as int), selection@) is None,
        decreases options.len() - i,
    {
        let found = options[i] == *selection;
        proof {
            let longer = texts.take(i + 1);
            assert(longer.drop_last() =~= texts.take(i as int));
            if found {
                lemma_first_position_stays(texts, selection@, i + 1);
            }
        }
        if found {
            if i < teams.len() {
                return Ok(teams[i].id.clone());
            } else {
                return Err(InputError::InvalidTeamSelection);
            }
        }
        i = i + 1;
    }
    proof {
        assert(texts.take(options.len() as int) =~= texts);
    }
    Err(InputError::InvalidTeamSelection)
}

/// Once a position is found among the first `n` options, it is the first
/// position among all of them.
proof fn lemma_first_position_stays(options: Seq<Seq<char>>, selection: Seq<char>, n: int)
    requires
        0 <= n <= options.len(),
        first_position(options.take(n), selection) is Some,
    ensures
        first_position(options, selection) == first_position(options.take(n), selection),
    decreases options.len() - n,
{
    if n < options.len() {
        let longer = options.take(n + 1);
        assert(longer.drop_last() =~= options.take(n));
        lemma_first_position_stays(options, selection, n + 1);
    } else {
        assert(options.take(n) =~= options);
    }
}

} // verus!
