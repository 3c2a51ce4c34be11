use vstd::prelude::*;
use crate::board::coord::Coord;
use crate::game::action::Action;
use crate::parser::tokens::{
    ascii_lower, eq_lit, lower_ascii, parse_i8, parse_i8_spec, parse_u8, parse_u8_spec, split, split_of,
    strip_newlines, strip_newlines_of, view_pieces, lemma_split_nonempty, spaced, lemma_split_spaced,
    lemma_number_text_has_no_separator,
};
use crate::state::PlayerId;
use crate::utils::resource::{Resource, Resources};
use crate::utils::text::{chars_of, string_of};

verus! {

/// Why a typed command could not be read as an action.
#[derive(Clone, Debug)]
pub enum ParsingError {
    WrongKeyword(String),
    CouldntParseNumber(String),
    CouldntParseCoord(String),
    CouldntParseResource(String),
    CouldntParsePlayer(String),
    NotEnoughtParameters,
}

/// A [`ParsingError`] seen through the characters of its text.
pub ghost enum ParsingErrorView {
    WrongKeyword(Seq<char>),
    CouldntParseNumber(Seq<char>),
    CouldntParseCoord(Seq<char>),
    CouldntParseResource(Seq<char>),
    CouldntParsePlayer(Seq<char>),
    NotEnoughtParameters,
}

impl View for ParsingError {
    type V = ParsingErrorView;

    open spec fn view(&self) -> ParsingErrorView {
        match self {
            ParsingError::WrongKeyword(s) => ParsingErrorView::WrongKeyword(s@),
            ParsingError::CouldntParseNumber(s) => ParsingErrorView::CouldntParseNumber(s@),
            ParsingError::CouldntParseCoord(s) => ParsingErrorView::CouldntParseCoord(s@),
            ParsingError::CouldntParseResource(s) => ParsingErrorView::CouldntParseResource(s@),
            ParsingError::CouldntParsePlayer(s) => ParsingErrorView::CouldntParsePlayer(s@),
            ParsingError::NotEnoughtParameters => ParsingErrorView::NotEnoughtParameters,
        }
    }
}

/// A result seen through the view of its error.
pub open spec fn view_res<T>(r: Result<T, ParsingError>) -> Result<T, ParsingErrorView> {
    match r {
        Ok(v) => Ok(v),
        Err(e) => Err(e@),
    }
}

pub open spec fn number_spec(raw: Seq<char>) -> Result<i8, ParsingErrorView> {
    match parse_i8_spec(raw) {
        Some(v) => Ok(v),
        None => Err(ParsingErrorView::CouldntParseNumber(raw)),
    }
}

/// A player: `none`, `n` or `-` in any case for no player, else its number.
pub open spec fn player_id_spec(raw: Seq<char>) -> Result<PlayerId, ParsingErrorView> {
    let low = ascii_lower(raw);
    if low == "none"@ || low == "n"@ || low == "-"@ {
        Ok(PlayerId::spec_none())
    } else {
        match parse_u8_spec(raw) {
            Some(id) => Ok(PlayerId(id)),
            None => Err(ParsingErrorView::CouldntParsePlayer(raw)),
        }
    }
}

/// An optional player, no player when absent.
pub open spec fn optional_player_id_spec(raw: Option<Seq<char>>) -> Result<PlayerId, ParsingErrorView> {
    match raw {
        Some(s) => player_id_spec(s),
        None => Ok(PlayerId::spec_none()),
    }
}

/// A coordinate `x,y`; what follows a second comma is ignored.
pub open spec fn coord_spec(raw: Seq<char>) -> Result<Coord, ParsingErrorView> {
    let pieces = split(raw, ',');
    match parse_i8_spec(pieces[0]) {
        Some(x) => if pieces.len() >= 2 {
            match parse_i8_spec(pieces[1]) {
                Some(y) => Ok(Coord { x, y }),
                None => Err(ParsingErrorView::CouldntParseCoord(raw)),
            }
        } else {
            Err(ParsingErrorView::CouldntParseCoord(raw))
        },
        None => Err(ParsingErrorView::CouldntParseCoord(raw)),
    }
}

/// A resource, by the first letter of the text.
pub open spec fn resource_spec(raw: Seq<char>) -> Result<Resource, ParsingErrorView> {
    if raw.len() == 0 {
        Err(ParsingErrorView::CouldntParseResource(raw))
    } else if raw[0] == 'B' {
        Ok(Resource::Brick)
    } else if raw[0] == 'L' {
        Ok(Resource::Lumber)
    } else if raw[0] == 'O' {
        Ok(Resource::Ore)
    } else if raw[0] == 'G' {
        Ok(Resource::Grain)
    } else if raw[0] == 'W' {
        Ok(Resource::Wool)
    } else {
        Err(ParsingErrorView::CouldntParseResource(raw))
    }
}

/// The word at position `i` of a command, if there is one.
pub open spec fn arg(words: Seq<Seq<char>>, i: int) -> Option<Seq<char>> {
    if 0 <= i < words.len() {
        Some(words[i])
    } else {
        None
    }
}

pub open spec fn need_coord(words: Seq<Seq<char>>, i: int) -> Result<Coord, ParsingErrorView> {
    match arg(words, i) {
        Some(w) => coord_spec(w),
        None => Err(ParsingErrorView::NotEnoughtParameters),
    }
}

pub open spec fn need_resource(words: Seq<Seq<char>>, i: int) -> Result<Resource, ParsingErrorView> {
    match arg(words, i) {
        Some(w) => resource_spec(w),
        None => Err(ParsingErrorView::NotEnoughtParameters),
    }
}

/// The `n` numbers from position `start` on, read left to right: the first
/// missing or unreadable one is the error.
pub open spec fn numbers_spec(words: Seq<Seq<char>>, start: int, n: nat) -> Result<Seq<i8>, ParsingErrorView>
    decreases n,
{
    if n == 0 {
        Ok(Seq::empty())
    } else {
        match numbers_spec(words, start, (n - 1) as nat) {
            Err(e) => Err(e),
            Ok(v) => match arg(words, start + n - 1) {
                None => Err(ParsingErrorView::NotEnoughtParameters),
                Some(w) => match number_spec(w) {
                    Err(e) => Err(e),
                    Ok(x) => Ok(v.push(x)),
                },
            },
        }
    }
}

pub open spec fn bundle_of(v: Seq<i8>, start: int) -> Resources {
    Resources { brick: v[start], lumber: v[start + 1], ore: v[start + 2], grain: v[start + 3], wool: v[start + 4] }
}

/// The action a command names, by its first word and its parameters.
pub open spec fn action_spec(words: Seq<Seq<char>>) -> Result<Action, ParsingErrorView> {
    let k = words[0];
    if k == "EndTurn"@ || k == "E"@ {
        Ok(Action::EndTurn)
    } else if k == "Quit"@ || k == "Q"@ {
        Ok(Action::Exit)
    } else if k == "RollDice"@ || k == "Roll"@ || k == "Dice"@ || k == "RL"@ {
        Ok(Action::RollDice)
    } else if k == "BuildRoad"@ || k == "Road"@ || k == "R"@ {
        match need_coord(words, 1) {
            Ok(path) => Ok(Action::BuildRoad { path }),
            Err(e) => Err(e),
        }
    } else if k == "BuildSettlement"@ || k == "Settlement"@ || k == "S"@ {
        match need_coord(words, 1) {
            Ok(intersection) => Ok(Action::BuildSettlement { intersection }),
            Err(e) => Err(e),
        }
    } else if k == "BuildCity"@ || k == "City"@ || k == "C"@ {
        match need_coord(words, 1) {
            Ok(intersection) => Ok(Action::BuildCity { intersection }),
            Err(e) => Err(e),
        }
    } else if k == "BuyDevelopmentCard"@ || k == "DevelopmentCard"@ || k == "Development"@ || k == "D"@ {
        Ok(Action::BuyDevelopment)
    } else if k == "PlayKnight"@ || k == "Knight"@ || k == "K"@ {
        Ok(Action::DevelopmentKnight)
    } else if k == "PlayRoadBuilding"@ || k == "RoadBuilding"@ || k == "RB"@ {
        Ok(Action::DevelopmentRoadBuilding)
    } else if k == "PlayYearOfPlenty"@ || k == "YearOfPlenty"@ || k == "YP"@ {
        match need_resource(words, 1) {
            Err(e) => Err(e),
            Ok(r1) => match need_resource(words, 2) {
                Err(e) => Err(e),
                Ok(r2) => Ok(Action::DevelopmentYearOfPlenty {
                    resources: Resources::spec_new(0, 0, 0, 0, 0).plus(Resources::one(r1, 1)).plus(Resources::one(r2, 1)),
                }),
            },
        }
    } else if k == "PlayMonopole"@ || k == "Monopole"@ || k == "M"@ {
        match need_resource(words, 1) {
            Ok(resource) => Ok(Action::DevelopmentMonopole { resource }),
            Err(e) => Err(e),
        }
    } else if k == "Keep"@ || k == "KP"@ {
        match numbers_spec(words, 1, 5) {
            Ok(v) => Ok(Action::Keep { resources: bundle_of(v, 0) }),
            Err(e) => Err(e),
        }
    } else if k == "MoveThief"@ || k == "Thief"@ || k == "MT"@ {
        match need_coord(words, 1) {
            Err(e) => Err(e),
            Ok(hex) => match optional_player_id_spec(arg(words, 2)) {
                Err(e) => Err(e),
                Ok(victim) => Ok(Action::MoveThief { hex, victim }),
            },
        }
    } else if k == "TradeBank"@ || k == "Trade"@ || k == "T"@ {
        match need_resource(words, 1) {
            Err(e) => Err(e),
            Ok(given) => match need_resource(words, 2) {
                Err(e) => Err(e),
                Ok(asked) => Ok(Action::TradeBank { given, asked }),
            },
        }
    } else if k == "TradePlayers"@ || k == "TP"@ {
        match numbers_spec(words, 1, 10) {
            Err(e) => Err(e),
            Ok(v) => match optional_player_id_spec(arg(words, 11)) {
                Err(e) => Err(e),
                Ok(partner) => Ok(Action::TradePlayers { offer: bundle_of(v, 0), want: bundle_of(v, 5), partner }),
            },
        }
    } else if k == "TradePlayersAccept"@ || k == "TPA"@ {
        Ok(Action::TradePlayersAccept)
    } else if k == "TradePlayersDecline"@ || k == "TPD"@ {
        Ok(Action::TradePlayersDecline)
    } else {
        Err(ParsingErrorView::WrongKeyword(k))
    }
}

/// A typed command: its line breaks are dropped and its words are the pieces
/// between single spaces.
pub open spec fn parse_action_spec(raw: Seq<char>) -> Result<Action, ParsingErrorView> {
    action_spec(split(strip_newlines(raw), ' '))
}

fn number_of(raw: &Vec<char>) -> (r: Result<i8, ParsingError>)
    ensures
        view_res(r) == number_spec(raw@),
{
    match parse_i8(raw) {
        Some(v) => Ok(v),
        None => Err(ParsingError::CouldntParseNumber(string_of(raw))),
    }
}

fn player_id_of(raw: &Vec<char>) -> (r: Result<PlayerId, ParsingError>)
    ensures
        view_res(r) == player_id_spec(raw@),
{
    let low = lower_ascii(raw);
    if eq_lit(&low, "none") || eq_lit(&low, "n") || eq_lit(&low, "-") {
        Ok(PlayerId::none())
    } else {
        match parse_u8(raw) {
            Some(id) => Ok(PlayerId::from(id)),
            None => Err(ParsingError::CouldntParsePlayer(string_of(raw))),
        }
    }
}

fn optional_player_id_of(raw: Option<&Vec<char>>) -> (r: Result<PlayerId, ParsingError>)
    ensures
        view_res(r) == optional_player_id_spec(match raw { Some(v) => Some(v@), None => None }),
{
    match raw {
        Some(player_str) => player_id_of(player_str),
        None => Ok(PlayerId::none()),
    }
}

fn coord_of(raw: &Vec<char>) -> (r: Result<Coord, ParsingError>)
    ensures
        view_res(r) == coord_spec(raw@),
{
    let pieces = split_of(raw, ',');
    proof {
        lemma_split_nonempty(raw@, ',');
        assert(pieces@[0]@ == split(raw@, ',')[0]);
    }
    let x = match parse_i8(&pieces[0]) {
        Some(x) => x,
        None => return Err(ParsingError::CouldntParseCoord(string_of(raw))),
    };
    if pieces.len() < 2 {
        return Err(ParsingError::CouldntParseCoord(string_of(raw)));
    }
    proof {
        assert(pieces@[1]@ == split(raw@, ',')[1]);
    }
    let y = match parse_i8(&pieces[1]) {
        Some(y) => y,
        None => return Err(ParsingError::CouldntParseCoord(string_of(raw))),
    };
    Ok(Coord::new(x, y))
}

fn resource_of(raw: &Vec<char>) -> (r: Result<Resource, ParsingError>)
    ensures
        view_res(r) == resource_spec(raw@),
{
    if raw.len() == 0 {
        return Err(ParsingError::CouldntParseResource(string_of(raw)));
    }
    let c = raw[0];
    if c == 'B' {
        Ok(Resource::Brick)
    } else if c == 'L' {
        Ok(Resource::Lumber)
    } else if c == 'O' {
        Ok(Resource::Ore)
    } else if c == 'G' {
        Ok(Resource::Grain)
    } else if c == 'W' {
        Ok(Resource::Wool)
    } else {
        Err(ParsingError::CouldntParseResource(string_of(raw)))
    }
}

pub fn end_parse_number(raw: &str) -> (r: Result<i8, ParsingError>)
    ensures
        view_res(r) == number_spec(raw@),
{
    number_of(&chars_of(raw))
}

pub fn end_parse_player_id(raw: &str) -> (r: Result<PlayerId, ParsingError>)
    ensures
        view_res(r) == player_id_spec(raw@),
{
    player_id_of(&chars_of(raw))
}

pub fn end_parse_optional_player_id(raw: Option<&str>) -> (r: Result<PlayerId, ParsingError>)
    ensures
        view_res(r) == optional_player_id_spec(match raw { Some(s) => Some(s@), None => None }),
{
    match raw {
        Some(player_str) => end_parse_player_id(player_str),
        None => Ok(PlayerId::none()),
    }
}

pub fn end_parse_coord(raw: &str) -> (r: Result<Coord, ParsingError>)
    ensures
        view_res(r) == coord_spec(raw@),
{
    coord_of(&chars_of(raw))
}

pub fn end_parse_resource(raw: &str) -> (r: Result<Resource, ParsingError>)
    ensures
        view_res(r) == resource_spec(raw@),
{
    resource_of(&chars_of(raw))
}

/// The word at position `i`, if there is one.
fn word(words: &Vec<Vec<char>>, i: usize) -> (r: Option<&Vec<char>>)
    ensures
        match r { Some(v) => Some(v@), None => None } == arg(view_pieces(words@), i as int),
{
    if i < words.len() {
        Some(&words[i])
    } else {
        None
    }
}

fn need_coord_of(words: &Vec<Vec<char>>, i: usize) -> (r: Result<Coord, ParsingError>)
    ensures
        view_res(r) == need_coord(view_pieces(words@), i as int),
{
    match word(words, i) {
        Some(w) => coord_of(w),
        None => Err(ParsingError::NotEnoughtParameters),
    }
}

fn need_resource_of(words: &Vec<Vec<char>>, i: usize) -> (r: Result<Resource, ParsingError>)
    ensures
        view_res(r) == need_resource(view_pieces(words@), i as int),
{
    match word(words, i) {
        Some(w) => resource_of(w),
        None => Err(ParsingError::NotEnoughtParameters),
    }
}

proof fn lemma_numbers_error_stays(words: Seq<Seq<char>>, start: int, k: nat, n: nat)
    requires
        k <= n,
        numbers_spec(words, start, k) is Err,
    ensures
        numbers_spec(words, start, n) == numbers_spec(words, start, k),
    decreases n,
{
    if n > k {
        lemma_numbers_error_stays(words, start, k, (n - 1) as nat);
    }
}

fn numbers_of(words: &Vec<Vec<char>>, start: usize, n: usize) -> (r: Result<Vec<i8>, ParsingError>)
    requires
        start + n <= usize::MAX,
    ensures
        match (r, numbers_spec(view_pieces(words@), start as int, n as nat)) {
            (Ok(v), Ok(s)) => v@ == s,
            (Err(e), Err(s)) => e@ == s,
            _ => false,
        },
        r is Ok ==> r->Ok_0.len() == n,
{
    let mut v: Vec<i8> = Vec::new();
    let mut k: usize = 0;
    while k < n
        invariant
            k <= n,
            start + n <= usize::MAX,
            numbers_spec(view_pieces(words@), start as int, k as nat) == Ok::<Seq<i8>, ParsingErrorView>(v@),
            v@.len() == k,
        decreases n - k,
    {
        let w = match word(words, start + k) {
            Some(w) => w,
            None => {
                proof {
                    lemma_numbers_error_stays(view_pieces(words@), start as int, (k + 1) as nat, n as nat);
                }
                return Err(ParsingError::NotEnoughtParameters);
            },
        };
        let x = match number_of(w) {
            Ok(x) => x,
            Err(e) => {
                proof {
                    lemma_numbers_error_stays(view_pieces(words@), start as int, (k + 1) as nat, n as nat);
                }
                return Err(e);
            },
        };
        v.push(x);
        k = k + 1;
    }
    Ok(v)
}

fn bundle_from(v: &Vec<i8>, start: usize) -> (r: Resources)
    requires
        start + 5 <= v.len(),
    ensures
        r == bundle_of(v@, start as int),
{
    Resources::new(v[start], v[start + 1], v[start + 2], v[start + 3], v[start + 4])
}

fn action_of(words: &Vec<Vec<char>>) -> (r: Result<Action, ParsingError>)
    requires
        words.len() >= 1,
    ensures
        view_res(r) == action_spec(view_pieces(words@)),
{
    let k = &words[0];
    proof {
        assert(view_pieces(words@)[0] == k@);
    }
    if eq_lit(k, "EndTurn") || eq_lit(k, "E") {
        Ok(Action::EndTurn)
    } else if eq_lit(k, "Quit") || eq_lit(k, "Q") {
        Ok(Action::Exit)
    } else if eq_lit(k, "RollDice") || eq_lit(k, "Roll") || eq_lit(k, "Dice") || eq_lit(k, "RL") {
        Ok(Action::RollDice)
    } else if eq_lit(k, "BuildRoad") || eq_lit(k, "Road") || eq_lit(k, "R") {
        let path = need_coord_of(words, 1)?;
        Ok(Action::BuildRoad { path })
    } else if eq_lit(k, "BuildSettlement") || eq_lit(k, "Settlement") || eq_lit(k, "S") {
        let intersection = need_coord_of(words, 1)?;
        Ok(Action::BuildSettlement { intersection })
    } else if eq_lit(k, "BuildCity") || eq_lit(k, "City") || eq_lit(k, "C") {
        let intersection = need_coord_of(words, 1)?;
        Ok(Action::BuildCity { intersection })
    } else if eq_lit(k, "BuyDevelopmentCard") || eq_lit(k, "DevelopmentCard") || eq_lit(k, "Development") || eq_lit(k, "D") {
        Ok(Action::BuyDevelopment)
    } else if eq_lit(k, "PlayKnight") || eq_lit(k, "Knight") || eq_lit(k, "K") {
        Ok(Action::DevelopmentKnight)
    } else if eq_lit(k, "PlayRoadBuilding") || eq_lit(k, "RoadBuilding") || eq_lit(k, "RB") {
        Ok(Action::DevelopmentRoadBuilding)
    } else if eq_lit(k, "PlayYearOfPlenty") || eq_lit(k, "YearOfPlenty") || eq_lit(k, "YP") {
        let resource1 = need_resource_of(words, 1)?;
        let resource2 = need_resource_of(words, 2)?;
        let mut resources = Resources::zero();
        resources.add_assign(Resources::new_one(resource1, 1));
        resources.add_assign(Resources::new_one(resource2, 1));
        Ok(Action::DevelopmentYearOfPlenty { resources })
    } else if eq_lit(k, "PlayMonopole") || eq_lit(k, "Monopole") || eq_lit(k, "M") {
        let resource = need_resource_of(words, 1)?;
        Ok(Action::DevelopmentMonopole { resource })
    } else if eq_lit(k, "Keep") || eq_lit(k, "KP") {
        let v = numbers_of(words, 1, 5)?;
        Ok(Action::Keep { resources: bundle_from(&v, 0) })
    } else if eq_lit(k, "MoveThief") || eq_lit(k, "Thief") || eq_lit(k, "MT") {
        let hex = need_coord_of(words, 1)?;
        let victim = optional_player_id_of(word(words, 2))?;
        Ok(Action::MoveThief { hex, victim })
    } else if eq_lit(k, "TradeBank") || eq_lit(k, "Trade") || eq_lit(k, "T") {
        let given = need_resource_of(words, 1)?;
        let asked = need_resource_of(words, 2)?;
        Ok(Action::TradeBank { given, asked })
    } else if eq_lit(k, "TradePlayers") || eq_lit(k, "TP") {
        let v = numbers_of(words, 1, 10)?;
        let partner = optional_player_id_of(word(words, 11))?;
        Ok(Action::TradePlayers { offer: bundle_from(&v, 0), want: bundle_from(&v, 5), partner })
    } else if eq_lit(k, "TradePlayersAccept") || eq_lit(k, "TPA") {
        Ok(Action::TradePlayersAccept)
    } else if eq_lit(k, "TradePlayersDecline") || eq_lit(k, "TPD") {
        Ok(Action::TradePlayersDecline)
    } else {
        Err(ParsingError::WrongKeyword(string_of(k)))
    }
}

/// Reads a typed command as an action.
pub fn parse_action(raw: String) -> (r: Result<Action, ParsingError>)
    ensures
        view_res(r) == parse_action_spec(raw@),
{
    let chars = chars_of(raw.as_str());
    let stripped = strip_newlines_of(&chars);
    let words = split_of(&stripped, ' ');
    proof {
        lemma_split_nonempty(stripped@, ' ');
    }
    action_of(&words)
}

/// A `Keep` command reads its five numbers as the brick, lumber, ore, grain
/// and wool to keep, in that order.
pub proof fn lemma_keep_reads_resources_in_order(
    words: Seq<Seq<char>>,
    brick: i8,
    lumber: i8,
    ore: i8,
    grain: i8,
    wool: i8,
)
    requires
        words.len() >= 6,
        words[0] == "Keep"@ || words[0] == "KP"@,
        parse_i8_spec(words[1]) == Some(brick),
        parse_i8_spec(words[2]) == Some(lumber),
        parse_i8_spec(words[3]) == Some(ore),
        parse_i8_spec(words[4]) == Some(grain),
        parse_i8_spec(words[5]) == Some(wool),
    ensures
        action_spec(words) == Ok::<Action, ParsingErrorView>(Action::Keep {
            resources: Resources { brick: brick, lumber: lumber, ore: ore, grain: grain, wool: wool },
        }),
{
    reveal_strlit("EndTurn");
    reveal_strlit("E");
    reveal_strlit("Quit");
    reveal_strlit("Q");
    reveal_strlit("RollDice");
    reveal_strlit("Roll");
    reveal_strlit("Dice");
    reveal_strlit("RL");
    reveal_strlit("BuildRoad");
    reveal_strlit("Road");
    reveal_strlit("R");
    reveal_strlit("BuildSettlement");
    reveal_strlit("Settlement");
    reveal_strlit("S");
    reveal_strlit("BuildCity");
    reveal_strlit("City");
    reveal_strlit("C");
    reveal_strlit("BuyDevelopmentCard");
    reveal_strlit("DevelopmentCard");
    reveal_strlit("Development");
    reveal_strlit("D");
    reveal_strlit("PlayKnight");
    reveal_strlit("Knight");
    reveal_strlit("K");
    reveal_strlit("PlayRoadBuilding");
    reveal_strlit("RoadBuilding");
    reveal_strlit("RB");
    reveal_strlit("PlayYearOfPlenty");
    reveal_strlit("YearOfPlenty");
    reveal_strlit("YP");
    reveal_strlit("PlayMonopole");
    reveal_strlit("Monopole");
    reveal_strlit("M");
    reveal_strlit("Keep");
    reveal_strlit("KP");
    reveal_strlit("MoveThief");
    reveal_strlit("Thief");
    reveal_strlit("MT");
    reveal_strlit("TradeBank");
    reveal_strlit("Trade");
    reveal_strlit("T");
    reveal_strlit("TradePlayers");
    reveal_strlit("TP");
    reveal_with_fuel(numbers_spec, 6);
}

/// A `TradePlayers` command reads its first five numbers as the brick,
/// lumber, ore, grain and wool offered and the next five as those asked for,
/// in that order; the word after them names the partner.
pub proof fn lemma_trade_players_reads_resources_in_order(
    words: Seq<Seq<char>>,
    offer: Seq<i8>,
    want: Seq<i8>,
)
    requires
        words.len() >= 11,
        words[0] == "TradePlayers"@ || words[0] == "TP"@,
        offer.len() == 5,
        want.len() == 5,
        forall|i: int| 0 <= i < 5 ==> parse_i8_spec(#[trigger] words[1 + i]) == Some(offer[i]),
        forall|i: int| 0 <= i < 5 ==> parse_i8_spec(#[trigger] words[6 + i]) == Some(want[i]),
    ensures
        action_spec(words) == (match optional_player_id_spec(arg(words, 11)) {
            Ok(partner) => Ok::<Action, ParsingErrorView>(Action::TradePlayers {
                offer: Resources { brick: offer[0], lumber: offer[1], ore: offer[2], grain: offer[3], wool: offer[4] },
                want: Resources { brick: want[0], lumber: want[1], ore: want[2], grain: want[3], wool: want[4] },
                partner,
            }),
            Err(e) => Err(e),
        }),
{
    reveal_strlit("EndTurn");
    reveal_strlit("E");
    reveal_strlit("Quit");
    reveal_strlit("Q");
    reveal_strlit("RollDice");
    reveal_strlit("Roll");
    reveal_strlit("Dice");
    reveal_strlit("RL");
    reveal_strlit("BuildRoad");
    reveal_strlit("Road");
    reveal_strlit("R");
    reveal_strlit("BuildSettlement");
    reveal_strlit("Settlement");
    reveal_strlit("S");
    reveal_strlit("BuildCity");
    reveal_strlit("City");
    reveal_strlit("C");
    reveal_strlit("BuyDevelopmentCard");
    reveal_strlit("DevelopmentCard");
    reveal_strlit("Development");
    reveal_strlit("D");
    reveal_strlit("PlayKnight");
    reveal_strlit("Knight");
    reveal_strlit("K");
    reveal_strlit("PlayRoadBuilding");
    reveal_strlit("RoadBuilding");
    reveal_strlit("RB");
    reveal_strlit("PlayYearOfPlenty");
    reveal_strlit("YearOfPlenty");
    reveal_strlit("YP");
    reveal_strlit("PlayMonopole");
    reveal_strlit("Monopole");
    reveal_strlit("M");
    reveal_strlit("Keep");
    reveal_strlit("KP");
    reveal_strlit("MoveThief");
    reveal_strlit("Thief");
    reveal_strlit("MT");
    reveal_strlit("TradeBank");
    reveal_strlit("Trade");
    reveal_strlit("T");
    reveal_strlit("TradePlayers");
    reveal_strlit("TP");
    reveal_with_fuel(numbers_spec, 11);
    assert(parse_i8_spec(words[1int + 0]) == Some(offer[0]));
    assert(parse_i8_spec(words[1int + 1]) == Some(offer[1]));
    assert(parse_i8_spec(words[1int + 2]) == Some(offer[2]));
    assert(parse_i8_spec(words[1int + 3]) == Some(offer[3]));
    assert(parse_i8_spec(words[1int + 4]) == Some(offer[4]));
    assert(parse_i8_spec(words[6int + 0]) == Some(want[0]));
    assert(parse_i8_spec(words[6int + 1]) == Some(want[1]));
    assert(parse_i8_spec(words[6int + 2]) == Some(want[2]));
    assert(parse_i8_spec(words[6int + 3]) == Some(want[3]));
    assert(parse_i8_spec(words[6int + 4]) == Some(want[4]));
}

/// Typed as text, `Keep` (or `KP`) and five numbers with single spaces
/// between them keep the brick, lumber, ore, grain and wool those numbers
/// give, in that order.
pub proof fn lemma_keep_text_reads_resources_in_order(
    keyword: Seq<char>,
    numbers: Seq<Seq<char>>,
    brick: i8,
    lumber: i8,
    ore: i8,
    grain: i8,
    wool: i8,
)
    requires
        keyword == "Keep"@ || keyword == "KP"@,
        numbers.len() == 5,
        parse_i8_spec(numbers[0]) == Some(brick),
        parse_i8_spec(numbers[1]) == Some(lumber),
        parse_i8_spec(numbers[2]) == Some(ore),
        parse_i8_spec(numbers[3]) == Some(grain),
        parse_i8_spec(numbers[4]) == Some(wool),
    ensures
        parse_action_spec(spaced(seq![keyword] + numbers)) == Ok::<Action, ParsingErrorView>(Action::Keep {
            resources: Resources { brick: brick, lumber: lumber, ore: ore, grain: grain, wool: wool },
        }),
{
    reveal_strlit("Keep");
    reveal_strlit("KP");
    let words = seq![keyword] + numbers;
    assert forall|i: int| 0 <= i < words.len() implies !(#[trigger] words[i]).contains(' ') && !words[i].contains('\n') by {
        if i > 0 {
            assert(words[i] == numbers[i - 1]);
            lemma_number_text_has_no_separator(numbers[i - 1]);
        } else {
            assert(words[i] == keyword);
        }
    }
    lemma_split_spaced(words);
    lemma_keep_reads_resources_in_order(words, brick, lumber, ore, grain, wool);
}

/// The help text that lists the commands.
pub open spec fn help_text() -> Seq<char> {
    "
Resource: [B]rick [L]umber [O]re [G]rain [W]ool
Coord: <x>,<y>
Action: [E]ndTurn
        [RL] RollDice
        Build[R]oad <Coord> / Build[S]ettlement <Coord> / Build[C]ity <Coord>
        Buy[D]evelopmentCard
        Play[K]night / Play[RB]RoadBuilding / Play[YP]YearOfPlenty <Resource1> <Resource2> / Play[M]onopole <Resource>
        [KP] Keep <Brick> <Lumber> <Ore> <Grain> <Wool> / Move[MT]hief <Coord> [PlayerId / [n]one]
        [T]radeBank <Resource> <Resource>
        [TP]radePlayers <Offer: B L O G W> <Require: B L O G W> <PlayerId>
        [TPA]ccept / [TPD]ecline
        [Q]uit
"@
}

pub fn parse_help() -> (r: &'static str)
    ensures
        r@ == help_text(),
{
    "
Resource: [B]rick [L]umber [O]re [G]rain [W]ool
Coord: <x>,<y>
Action: [E]ndTurn
        [RL] RollDice
        Build[R]oad <Coord> / Build[S]ettlement <Coord> / Build[C]ity <Coord>
        Buy[D]evelopmentCard
        Play[K]night / Play[RB]RoadBuilding / Play[YP]YearOfPlenty <Resource1> <Resource2> / Play[M]onopole <Resource>
        [KP] Keep <Brick> <Lumber> <Ore> <Grain> <Wool> / Move[MT]hief <Coord> [PlayerId / [n]one]
        [T]radeBank <Resource> <Resource>
        [TP]radePlayers <Offer: B L O G W> <Require: B L O G W> <PlayerId>
        [TPA]ccept / [TPD]ecline
        [Q]uit
"
}

} // verus!
