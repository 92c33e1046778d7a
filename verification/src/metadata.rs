//! Player records and the output of the program that lists them.
//!
//! That program prints one line per active player:
//! `state;artist;title;art-url;album;<unused>;name`, seven fields at least.
//! The list ends at the first empty line.

use vstd::prelude::*;
use crate::text::{equal, first_index, free_of, pieces, split, trim, trimmed};

verus! {

/// What a player is doing.
#[derive(Debug, Clone, Copy, PartialEq, Eq, Structural)]
pub enum State {
    Playing,
    Paused,
    Stopped,
}

/// One player's state and metadata, as a mathematical value.
pub struct PlayerRecord {
    pub state: State,
    pub artist: Seq<char>,
    pub title: Seq<char>,
    pub art_url: Seq<char>,
    pub album: Seq<char>,
    pub name: Seq<char>,
}

/// One player's state and metadata, as reported by one poll.
#[derive(Debug)]
pub struct PlayerMetadata {
    state: State,
    artist: String,
    title: String,
    art_url: String,
    album: String,
    player: String,
}

impl View for PlayerMetadata {
    type V = PlayerRecord;

    closed spec fn view(&self) -> PlayerRecord {
        PlayerRecord {
            state: self.state,
            artist: self.artist@,
            title: self.title@,
            art_url: self.art_url@,
            album: self.album@,
            name: self.player@,
        }
    }
}

impl DeepView for PlayerMetadata {
    type V = PlayerRecord;

    open spec fn deep_view(&self) -> PlayerRecord {
        self@
    }
}

/// Why a listing could not be read.
#[derive(Debug, Clone, Copy, PartialEq, Eq, Structural)]
pub enum FetchError {
    /// A line has fewer than seven fields, so it names no player.
    MissingPlayerName,
}

/// What one fetch tells the engine, as a mathematical value.
pub struct Info {
    pub code: i32,
    pub display: Seq<char>,
    pub player: Seq<char>,
}

/// What one fetch tells the engine: the listing program's exit code, the
/// label to display and the name of the player that it belongs to.
pub struct InfoResponse {
    code: i32,
    display: String,
    player: String,
}

impl View for InfoResponse {
    type V = Info;

    closed spec fn view(&self) -> Info {
        Info { code: self.code, display: self.display@, player: self.player@ }
    }
}

/// The state that a line's first field names. Anything that is neither
/// `Playing` nor `Paused` counts as stopped.
pub open spec fn state_of(text: Seq<char>) -> State {
    if text == "Playing"@ {
        State::Playing
    } else if text == "Paused"@ {
        State::Paused
    } else {
        State::Stopped
    }
}

/// The icon shown before the label of a player in the given state.
pub open spec fn state_icon(state: State) -> Seq<char> {
    match state {
        State::Paused => seq!['\u{f28b}', ' '],
        State::Playing => Seq::empty(),
        State::Stopped => seq!['\u{f28d}', ' '],
    }
}

/// The on-screen label of a record: the state's icon, then
/// `artist - title`, or the title alone where the artist is unknown.
pub open spec fn display_text(record: PlayerRecord) -> Seq<char> {
    if record.artist.len() > 0 {
        state_icon(record.state) + record.artist + seq![' ', '-', ' '] + record.title
    } else {
        state_icon(record.state) + record.title
    }
}

/// Whether a line has the seven fields of a record.
pub open spec fn is_record_line(line: Seq<char>) -> bool {
    pieces(line, ';').len() >= 7
}

/// The record that a line with seven fields or more holds. Fields are read
/// by position and trimmed; the sixth and all after the seventh are ignored.
pub open spec fn record_of(line: Seq<char>) -> PlayerRecord {
    let fields = pieces(line, ';');
    PlayerRecord {
        state: state_of(trimmed(fields[0])),
        artist: trimmed(fields[1]),
        title: trimmed(fields[2]),
        art_url: trimmed(fields[3]),
        album: trimmed(fields[4]),
        name: trimmed(fields[6]),
    }
}

/// The lines of a listing: those before its first empty line.
pub open spec fn listed_lines(output: Seq<char>) -> Seq<Seq<char>> {
    let lines = pieces(output, '\n');
    lines.take(first_index(lines, Seq::<char>::empty()) as int)
}

/// The records of a sequence of lines.
pub open spec fn records_of(lines: Seq<Seq<char>>) -> Seq<PlayerRecord> {
    lines.map_values(|line: Seq<char>| record_of(line))
}

/// What a whole listing holds: the record of every listed line, in order,
/// provided that each has seven fields.
pub open spec fn listing(output: Seq<char>) -> Result<Seq<PlayerRecord>, FetchError> {
    let lines = listed_lines(output);
    if forall|i: int| 0 <= i < lines.len() ==> is_record_line(#[trigger] lines[i]) {
        Ok(records_of(lines))
    } else {
        Err(FetchError::MissingPlayerName)
    }
}

/// Whether reading a listing for the player `selected` ends at `line`:
/// either the line is malformed, or it is the selected player's.
pub open spec fn ends_search(line: Seq<char>, selected: Seq<char>) -> bool {
    !is_record_line(line) || (selected.len() > 0 && record_of(line).name == selected)
}

/// The position among `lines` at which the search for `selected` ends, or
/// `lines.len()` where it reads them all.
pub open spec fn search_end(lines: Seq<Seq<char>>, selected: Seq<char>) -> nat {
    first_index(lines.map_values(|line: Seq<char>| ends_search(line, selected)), true)
}

/// The record to display among `records`: the first one named `selected`,
/// where `selected` is not empty and there is one; else the first record;
/// none where there is no record.
pub open spec fn chosen_record(records: Seq<PlayerRecord>, selected: Seq<char>) -> Option<
    PlayerRecord,
> {
    let names = records.map_values(|record: PlayerRecord| record.name);
    let found = first_index(names, selected) as int;
    if selected.len() > 0 && found < records.len() {
        Some(records[found])
    } else if records.len() > 0 {
        Some(records[0])
    } else {
        None
    }
}

/// A record, or none, with its label: what a fetch hands to the engine.
pub open spec fn with_label(record: Option<PlayerRecord>) -> (Option<PlayerRecord>, Seq<char>) {
    match record {
        Some(r) => (Some(r), display_text(r)),
        None => (None, Seq::empty()),
    }
}

/// What a fetch for the player `selected` finds in a listing. Lines are read
/// in order. The selected player's line ends the search at once and wins. A
/// malformed line met before that fails the fetch. Without either, the first
/// line's record wins, and an empty listing gives no record.
pub open spec fn fetched(output: Seq<char>, selected: Seq<char>) -> Result<
    (Option<PlayerRecord>, Seq<char>),
    FetchError,
> {
    let lines = listed_lines(output);
    let end = search_end(lines, selected) as int;
    if end < lines.len() {
        if is_record_line(lines[end]) {
            Ok(with_label(Some(record_of(lines[end]))))
        } else {
            Err(FetchError::MissingPlayerName)
        }
    } else if lines.len() > 0 {
        Ok(with_label(Some(record_of(lines[0]))))
    } else {
        Ok(with_label(None))
    }
}

/// What the engine is told of a fetch. A non-zero exit code is handed on
/// with no player named. Otherwise the code is zero, also where the program
/// ended without one, and the player is the record's, or empty without a
/// record.
pub open spec fn info_of(
    code: Option<i32>,
    record: Option<PlayerRecord>,
    label: Seq<char>,
) -> Info {
    if code is Some && code->Some_0 != 0 {
        Info { code: code->Some_0, display: label, player: Seq::empty() }
    } else {
        Info {
            code: 0,
            display: label,
            player: match record {
                Some(r) => r.name,
                None => Seq::empty(),
            },
        }
    }
}

impl InfoResponse {
    /// The listing program's exit code; zero where it gave none.
    pub fn code(&self) -> (code: i32)
        ensures
            code == self@.code,
    {
        self.code
    }

    /// The label to display.
    pub fn display(&self) -> (display: &String)
        ensures
            display@ == self@.display,
    {
        &self.display
    }

    /// The name of the player that the label belongs to.
    pub fn player(&self) -> (player: &String)
        ensures
            player@ == self@.player,
    {
        &self.player
    }
}

impl FetchError {
    /// The error in words.
    pub fn message(&self) -> (text: String)
        ensures
            text@ == "Could not extract player's name"@,
    {
        String::from_str("Could not extract player's name")
    }
}

impl PlayerMetadata {
    /// Makes a record from its fields, the state given by its name.
    pub fn create(
        player: &str,
        state: &str,
        artist: &str,
        title: &str,
        album: &str,
        art_url: &str,
    ) -> (record: Self)
        ensures
            record@ == (PlayerRecord {
                state: state_of(state@),
                artist: artist@,
                title: title@,
                art_url: art_url@,
                album: album@,
                name: player@,
            }),
    {
        let player_state = if equal(state, "Playing") {
            State::Playing
        } else if equal(state, "Paused") {
            State::Paused
        } else {
            State::Stopped
        };
        PlayerMetadata {
            state: player_state,
            artist: String::from_str(artist),
            title: String::from_str(title),
            art_url: String::from_str(art_url),
            album: String::from_str(album),
            player: String::from_str(player),
        }
    }

    /// The on-screen label of the record.
    pub fn get_display(&self) -> (label: String)
        ensures
            label@ == display_text(self@),
    {
        proof {
            reveal_strlit("\u{f28b} ");
            reveal_strlit("\u{f28d} ");
            reveal_strlit("");
            reveal_strlit(" - ");
        }
        let mut label = match self.state {
            State::Paused => String::from_str("\u{f28b} "),
            State::Playing => String::from_str(""),
            State::Stopped => String::from_str("\u{f28d} "),
        };
        if !self.artist.as_str().is_empty() {
            label.append(self.artist.as_str());
            label.append(" - ");
        }
        label.append(self.title.as_str());
        label
    }

    /// What the player is doing.
    pub fn state(&self) -> (state: State)
        ensures
            state == self@.state,
    {
        self.state
    }

    /// The artist; empty where unknown.
    pub fn artist(&self) -> (artist: &String)
        ensures
            artist@ == self@.artist,
    {
        &self.artist
    }

    /// The title.
    pub fn title(&self) -> (title: &String)
        ensures
            title@ == self@.title,
    {
        &self.title
    }

    /// Where the cover art is; empty where unknown.
    pub fn art_url(&self) -> (art_url: &String)
        ensures
            art_url@ == self@.art_url,
    {
        &self.art_url
    }

    /// The album; empty where unknown.
    pub fn album(&self) -> (album: &String)
        ensures
            album@ == self@.album,
    {
        &self.album
    }

    /// The player's stable name.
    pub fn player(&self) -> (player: &String)
        ensures
            player@ == self@.name,
    {
        &self.player
    }
}

/// Reads one line of a listing.
pub fn parse_line(line: &str) -> (parsed: Result<PlayerMetadata, FetchError>)
    ensures
        parsed is Ok <==> is_record_line(line@),
        parsed matches Ok(record) ==> record@ == record_of(line@),
        parsed matches Err(error) ==> error == FetchError::MissingPlayerName,
{
    let fields = split(line, ';');
    if fields.len() < 7 {
        return Err(FetchError::MissingPlayerName);
    }
    let player = trim(fields[6].as_str());
    let state = trim(fields[0].as_str());
    let artist = trim(fields[1].as_str());
    let title = trim(fields[2].as_str());
    let album = trim(fields[4].as_str());
    let art_url = trim(fields[3].as_str());
    Ok(
        PlayerMetadata::create(
            player.as_str(),
            state.as_str(),
            artist.as_str(),
            title.as_str(),
            album.as_str(),
            art_url.as_str(),
        ),
    )
}

/// Reads a whole listing: the standard output of the program that lists the
/// players. One malformed line fails it all.
pub fn fetch_list(output: &str) -> (players: Result<Vec<PlayerMetadata>, FetchError>)
    ensures
        match players {
            Ok(records) => listing(output@) == Ok::<Seq<PlayerRecord>, FetchError>(
                records.deep_view(),
            ),
            Err(error) => listing(output@) == Err::<Seq<PlayerRecord>, FetchError>(error),
        },
{
    let lines = split(output, '\n');
    let ghost all = pieces(output@, '\n');
    let ghost empty = Seq::<char>::empty();
    let mut players: Vec<PlayerMetadata> = Vec::new();
    let mut i: usize = 0;
    while i < lines.len()
        invariant
            i <= lines.len(),
            all == pieces(output@, '\n'),
            empty == Seq::<char>::empty(),
            lines.deep_view() == all,
            forall|j: int| 0 <= j < i ==> all[j] != empty,
            forall|j: int| 0 <= j < i ==> is_record_line(#[trigger] all[j]),
            players.deep_view() == records_of(all.take(i as int)),
        ensures
            i <= lines.len(),
            forall|j: int| 0 <= j < i ==> all[j] != empty,
            forall|j: int| 0 <= j < i ==> is_record_line(#[trigger] all[j]),
            players.deep_view() == records_of(all.take(i as int)),
            i < lines.len() ==> all[i as int] == empty,
        decreases lines.len() - i,
    {
        let line = lines[i].as_str();
        if line.is_empty() {
            break ;
        }
        match parse_line(line) {
            Err(error) => {
                proof {
                    // Line `i` is listed, since no line up to it is empty.
                    crate::text::lemma_first_index_found(all, empty);
                    assert(listed_lines(output@)[i as int] == all[i as int]);
                }
                return Err(error);
            },
            Ok(record) => {
                players.push(record);
                assert(records_of(all.take(i + 1)) =~= records_of(all.take(i as int)).push(
                    record_of(all[i as int]),
                ));
            },
        }
        i += 1;
    }
    proof {
        // The listing ends at `i`, and every line before it is well formed.
        crate::text::lemma_first_index_is(all, empty, i as int);
        assert(listed_lines(output@) == all.take(i as int));
    }
    Ok(players)
}

/// Whether a fetch for `selected` reads on after `line`: the line is not
/// empty, which would end the listing, and does not end the search.
spec fn reads_on(line: Seq<char>, selected: Seq<char>) -> bool {
    line.len() > 0 && !ends_search(line, selected)
}

/// How far a fetch reads. Where it reads on after each of the first `i`
/// lines of the output and not after line `i`, the search ends at `i`, and
/// line `i` is listed unless it is empty or missing.
proof fn lemma_search_end(output: Seq<char>, selected: Seq<char>, i: int)
    requires
        0 <= i <= pieces(output, '\n').len(),
        forall|j: int| 0 <= j < i ==> reads_on(#[trigger] pieces(output, '\n')[j], selected),
        i < pieces(output, '\n').len() ==> !reads_on(pieces(output, '\n')[i], selected),
    ensures
        search_end(listed_lines(output), selected) == i,
        listed_lines(output).len() >= i,
        listed_lines(output).len() > i <==> i < pieces(output, '\n').len() && pieces(
            output,
            '\n',
        )[i].len() > 0,
        forall|j: int|
            0 <= j < listed_lines(output).len() ==> listed_lines(output)[j] == pieces(
                output,
                '\n',
            )[j],
{
    let all = pieces(output, '\n');
    let empty = Seq::<char>::empty();
    let listed = listed_lines(output);
    let flags = listed.map_values(|line: Seq<char>| ends_search(line, selected));
    crate::text::lemma_first_index_found(all, empty);
    if i == all.len() || all[i].len() == 0 {
        assert(i < all.len() ==> all[i] =~= empty);
        crate::text::lemma_first_index_is(all, empty, i);
    }
    assert(forall|j: int| 0 <= j < i ==> all[j].len() > 0 && !flags[j]);
    crate::text::lemma_first_index_is(flags, true, i);
}

/// With every listed line well formed, a fetch returns the record to
/// display among all the listing's records: the selected player's where
/// `selected` is not empty and the player is listed, else the first record,
/// unchanged, or none where the listing is empty.
pub proof fn lemma_fetch_chooses_among_all(output: Seq<char>, selected: Seq<char>)
    requires
        listing(output) is Ok,
    ensures
        fetched(output, selected) == Ok::<(Option<PlayerRecord>, Seq<char>), FetchError>(
            with_label(chosen_record(listing(output)->Ok_0, selected)),
        ),
{
    let lines = listed_lines(output);
    let records = records_of(lines);
    let names = records.map_values(|record: PlayerRecord| record.name);
    let flags = lines.map_values(|line: Seq<char>| ends_search(line, selected));
    let found = first_index(names, selected) as int;
    crate::text::lemma_first_index_found(names, selected);
    // Among well-formed lines the search ends at the selected player's.
    assert(forall|j: int|
        0 <= j < lines.len() ==> is_record_line(#[trigger] lines[j]) && flags[j] == (
        selected.len() > 0 && names[j] == selected));
    if selected.len() > 0 {
        crate::text::lemma_first_index_is(flags, true, found);
    } else {
        crate::text::lemma_first_index_is(flags, true, lines.len() as int);
    }
}

/// The texts of a record hold no character that its line is free of.
pub proof fn lemma_record_free_of(line: Seq<char>, c: char)
    requires
        is_record_line(line),
        free_of(line, c),
    ensures
        free_of(record_of(line).artist, c),
        free_of(record_of(line).title, c),
        free_of(record_of(line).art_url, c),
        free_of(record_of(line).album, c),
        free_of(record_of(line).name, c),
{
    let fields = pieces(line, ';');
    crate::text::lemma_pieces_free_of(line, ';', c);
    crate::text::lemma_trimmed_free_of(fields[1], c);
    crate::text::lemma_trimmed_free_of(fields[2], c);
    crate::text::lemma_trimmed_free_of(fields[3], c);
    crate::text::lemma_trimmed_free_of(fields[4], c);
    crate::text::lemma_trimmed_free_of(fields[6], c);
}

/// No listed line holds a line feed, so neither do the label and player of
/// any of their records.
pub proof fn lemma_listed_lines_are_lines(output: Seq<char>, k: int)
    requires
        0 <= k < listed_lines(output).len(),
    ensures
        free_of(listed_lines(output)[k], '\n'),
        is_record_line(listed_lines(output)[k]) ==> free_of(
            record_of(listed_lines(output)[k]).name,
            '\n',
        ) && free_of(display_text(record_of(listed_lines(output)[k])), '\n'),
{
    let all = pieces(output, '\n');
    let line = listed_lines(output)[k];
    crate::text::lemma_first_index_found(all, Seq::<char>::empty());
    crate::text::lemma_pieces_free_of(output, '\n', '\n');
    if is_record_line(line) {
        lemma_record_free_of(line, '\n');
    }
}

/// What a fetch finds is fit for one line: neither the label nor the
/// player's name holds a line feed.
pub proof fn lemma_fetched_is_one_line(output: Seq<char>, selected: Seq<char>)
    ensures
        fetched(output, selected) matches Ok((record, label)) ==> free_of(label, '\n') && (
        record matches Some(r) ==> free_of(r.name, '\n')),
{
    let lines = listed_lines(output);
    let end = search_end(lines, selected) as int;
    if end < lines.len() {
        lemma_listed_lines_are_lines(output, end);
    } else if lines.len() > 0 {
        let flags = lines.map_values(|line: Seq<char>| ends_search(line, selected));
        crate::text::lemma_first_index_found(flags, true);
        lemma_listed_lines_are_lines(output, 0);
    }
}

/// Reads a listing for the engine: finds the record to display for the
/// player `selected_player`, and its label. `output` is the standard output
/// of the program that lists the players and `code` its exit code, which is
/// handed on unchanged.
pub fn fetch_data(output: &str, code: Option<i32>, selected_player: &String) -> (found: Result<
    (Option<i32>, Option<PlayerMetadata>, String),
    FetchError,
>)
    ensures
        match found {
            Ok((status, Some(record), label)) => status == code && fetched(
                output@,
                selected_player@,
            ) == Ok::<(Option<PlayerRecord>, Seq<char>), FetchError>((Some(record@), label@)),
            Ok((status, None, label)) => status == code && fetched(output@, selected_player@)
                == Ok::<(Option<PlayerRecord>, Seq<char>), FetchError>((None, label@)),
            Err(error) => fetched(output@, selected_player@) == Err::<
                (Option<PlayerRecord>, Seq<char>),
                FetchError,
            >(error),
        },
{
    let lines = split(output, '\n');
    let ghost all = pieces(output@, '\n');
    let ghost empty = Seq::<char>::empty();
    let ghost selected = selected_player@;
    let mut first_display = String::new();
    let mut first_player: Option<PlayerMetadata> = None;
    let mut i: usize = 0;
    while i < lines.len()
        invariant
            i <= lines.len(),
            all == pieces(output@, '\n'),
            empty == Seq::<char>::empty(),
            selected == selected_player@,
            lines.deep_view() == all,
            forall|j: int| 0 <= j < i ==> reads_on(#[trigger] all[j], selected),
            i == 0 ==> first_player is None && first_display@ == empty,
            i > 0 ==> first_player is Some && first_player->Some_0@ == record_of(all[0])
                && first_display@ == display_text(record_of(all[0])),
        ensures
            i <= lines.len(),
            forall|j: int| 0 <= j < i ==> reads_on(#[trigger] all[j], selected),
            i == 0 ==> first_player is None && first_display@ == empty,
            i > 0 ==> first_player is Some && first_player->Some_0@ == record_of(all[0])
                && first_display@ == display_text(record_of(all[0])),
            i < lines.len() ==> all[i as int].len() == 0,
        decreases lines.len() - i,
    {
        let line = lines[i].as_str();
        if line.is_empty() {
            break ;
        }
        match parse_line(line) {
            Err(error) => {
                proof {
                    lemma_search_end(output@, selected, i as int);
                }
                return Err(error);
            },
            Ok(record) => {
                let is_selected = !selected_player.as_str().is_empty() && *record.player()
                    == *selected_player;
                if is_selected {
                    proof {
                        lemma_search_end(output@, selected, i as int);
                    }
                    let label = record.get_display();
                    return Ok((code, Some(record), label));
                }
                if first_player.is_none() {
                    first_display = record.get_display();
                    first_player = Some(record);
                }
            },
        }
        i += 1;
    }
    proof {
        lemma_search_end(output@, selected, i as int);
    }
    Ok((code, first_player, first_display))
}

/// Reads a listing for the engine and sums up what it found for the player
/// `current_player`.
pub fn fetch_info(output: &str, code: Option<i32>, current_player: &String) -> (info: Result<
    InfoResponse,
    FetchError,
>)
    ensures
        match info {
            Ok(response) => fetched(output@, current_player@) is Ok && response@ == info_of(
                code,
                fetched(output@, current_player@)->Ok_0.0,
                fetched(output@, current_player@)->Ok_0.1,
            ),
            Err(error) => fetched(output@, current_player@) == Err::<
                (Option<PlayerRecord>, Seq<char>),
                FetchError,
            >(error),
        },
{
    let mut new_player = String::new();
    let (status, metadata, text) = match fetch_data(output, code, current_player) {
        Ok(found) => found,
        Err(error) => {
            return Err(error);
        },
    };
    if let Some(v) = status {
        if v != 0 {
            return Ok(InfoResponse { code: v, player: new_player, display: text });
        }
    }
    if let Some(value) = metadata {
        new_player = value.player;
    }
    Ok(InfoResponse { code: 0, player: new_player, display: text })
}

} // verus!
