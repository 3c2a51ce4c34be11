use catan::board::coord::Coord;
use catan::game::action::Action;
use catan::parser::action_parser::{
    end_parse_coord, end_parse_number, end_parse_optional_player_id, end_parse_player_id, end_parse_resource,
    parse_action, parse_help, ParsingError,
};
use catan::state::PlayerId;
use catan::utils::resource::{Resource, Resources};

fn parse(s: &str) -> Result<Action, ParsingError> {
    parse_action(String::from(s))
}

#[test]
fn parse_number_accepts_bytes_and_signs() {
    assert_eq!(end_parse_number("12").unwrap(), 12);
    assert_eq!(end_parse_number("-128").unwrap(), -128);
    assert_eq!(end_parse_number("+7").unwrap(), 7);
    assert!(matches!(end_parse_number("128"), Err(ParsingError::CouldntParseNumber(s)) if s == "128"));
    assert!(matches!(end_parse_number("x"), Err(ParsingError::CouldntParseNumber(s)) if s == "x"));
    assert!(matches!(end_parse_number(""), Err(ParsingError::CouldntParseNumber(s)) if s.is_empty()));
}

#[test]
fn parse_player_id_reads_none_in_any_case() {
    assert_eq!(end_parse_player_id("none").unwrap(), PlayerId::none());
    assert_eq!(end_parse_player_id("NoNe").unwrap(), PlayerId::none());
    assert_eq!(end_parse_player_id("N").unwrap(), PlayerId::none());
    assert_eq!(end_parse_player_id("-").unwrap(), PlayerId::none());
    assert_eq!(end_parse_player_id("3").unwrap(), PlayerId::from(3u8));
    assert!(matches!(end_parse_player_id("256"), Err(ParsingError::CouldntParsePlayer(s)) if s == "256"));
    assert!(matches!(end_parse_player_id("-1"), Err(ParsingError::CouldntParsePlayer(s)) if s == "-1"));
}

#[test]
fn parse_optional_player_defaults_to_none() {
    assert_eq!(end_parse_optional_player_id(None).unwrap(), PlayerId::none());
    assert_eq!(end_parse_optional_player_id(Some("2")).unwrap(), PlayerId::from(2u8));
    assert!(end_parse_optional_player_id(Some("two")).is_err());
}

#[test]
fn parse_coord_reads_two_numbers() {
    assert_eq!(end_parse_coord("3,-5").unwrap(), Coord::new(3, -5));
    assert_eq!(end_parse_coord("3,5,9").unwrap(), Coord::new(3, 5));
    assert!(matches!(end_parse_coord("3"), Err(ParsingError::CouldntParseCoord(s)) if s == "3"));
    assert!(matches!(end_parse_coord("a,1"), Err(ParsingError::CouldntParseCoord(s)) if s == "a,1"));
    assert!(matches!(end_parse_coord("1,300"), Err(ParsingError::CouldntParseCoord(s)) if s == "1,300"));
}

#[test]
fn parse_resource_reads_the_first_letter() {
    assert_eq!(end_parse_resource("B").unwrap(), Resource::Brick);
    assert_eq!(end_parse_resource("Lumber").unwrap(), Resource::Lumber);
    assert_eq!(end_parse_resource("Ore").unwrap(), Resource::Ore);
    assert_eq!(end_parse_resource("G").unwrap(), Resource::Grain);
    assert_eq!(end_parse_resource("Wx").unwrap(), Resource::Wool);
    assert!(matches!(end_parse_resource("brick"), Err(ParsingError::CouldntParseResource(s)) if s == "brick"));
    assert!(matches!(end_parse_resource(""), Err(ParsingError::CouldntParseResource(s)) if s.is_empty()));
}

#[test]
fn parse_simple_keywords() {
    assert_eq!(parse("EndTurn").unwrap(), Action::EndTurn);
    assert_eq!(parse("E\n").unwrap(), Action::EndTurn);
    assert_eq!(parse("Q").unwrap(), Action::Exit);
    assert_eq!(parse("Dice").unwrap(), Action::RollDice);
    assert_eq!(parse("RL").unwrap(), Action::RollDice);
    assert_eq!(parse("D").unwrap(), Action::BuyDevelopment);
    assert_eq!(parse("K").unwrap(), Action::DevelopmentKnight);
    assert_eq!(parse("RB").unwrap(), Action::DevelopmentRoadBuilding);
    assert_eq!(parse("TPA").unwrap(), Action::TradePlayersAccept);
    assert_eq!(parse("TradePlayersDecline").unwrap(), Action::TradePlayersDecline);
}

#[test]
fn parse_builds() {
    assert_eq!(parse("R 2,0").unwrap(), Action::BuildRoad { path: Coord::new(2, 0) });
    assert_eq!(parse("Settlement 0,1").unwrap(), Action::BuildSettlement { intersection: Coord::new(0, 1) });
    assert_eq!(parse("BuildCity -2,-1\n").unwrap(), Action::BuildCity { intersection: Coord::new(-2, -1) });
    assert!(matches!(parse("R"), Err(ParsingError::NotEnoughtParameters)));
    assert!(matches!(parse("C x"), Err(ParsingError::CouldntParseCoord(s)) if s == "x"));
}

#[test]
fn parse_development_cards() {
    assert_eq!(
        parse("YP B B").unwrap(),
        Action::DevelopmentYearOfPlenty { resources: Resources::new(2, 0, 0, 0, 0) }
    );
    assert_eq!(
        parse("YearOfPlenty O W").unwrap(),
        Action::DevelopmentYearOfPlenty { resources: Resources::new(0, 0, 1, 0, 1) }
    );
    assert!(matches!(parse("YP B"), Err(ParsingError::NotEnoughtParameters)));
    assert_eq!(parse("M G").unwrap(), Action::DevelopmentMonopole { resource: Resource::Grain });
}

#[test]
fn parse_keep_and_thief() {
    assert_eq!(parse("KP 1 0 2 0 1").unwrap(), Action::Keep { resources: Resources::new(1, 0, 2, 0, 1) });
    assert!(matches!(parse("Keep 1 0 2 0"), Err(ParsingError::NotEnoughtParameters)));
    assert_eq!(
        parse("MT 4,0 2").unwrap(),
        Action::MoveThief { hex: Coord::new(4, 0), victim: PlayerId::from(2u8) }
    );
    assert_eq!(parse("Thief 4,0").unwrap(), Action::MoveThief { hex: Coord::new(4, 0), victim: PlayerId::none() });
    assert_eq!(parse("MoveThief 4,0 n").unwrap(), Action::MoveThief { hex: Coord::new(4, 0), victim: PlayerId::none() });
}

#[test]
fn parse_trades() {
    assert_eq!(parse("T B W").unwrap(), Action::TradeBank { given: Resource::Brick, asked: Resource::Wool });
    assert_eq!(
        parse("TP 1 0 0 0 0 0 0 0 0 1 3").unwrap(),
        Action::TradePlayers {
            offer: Resources::new(1, 0, 0, 0, 0),
            want: Resources::new(0, 0, 0, 0, 1),
            partner: PlayerId::from(3u8),
        }
    );
    assert_eq!(
        parse("TradePlayers 1 0 0 0 0 0 0 0 0 1").unwrap(),
        Action::TradePlayers {
            offer: Resources::new(1, 0, 0, 0, 0),
            want: Resources::new(0, 0, 0, 0, 1),
            partner: PlayerId::none(),
        }
    );
    assert!(matches!(parse("TP 1 0 0"), Err(ParsingError::NotEnoughtParameters)));
}

#[test]
fn parse_unknown_keyword() {
    assert!(matches!(parse("Fly"), Err(ParsingError::WrongKeyword(s)) if s == "Fly"));
    assert!(matches!(parse(""), Err(ParsingError::WrongKeyword(s)) if s.is_empty()));
    assert!(matches!(parse(" E"), Err(ParsingError::WrongKeyword(s)) if s.is_empty()));
}

#[test]
fn parse_help_lists_the_commands() {
    let help = parse_help();
    assert!(help.starts_with("\nResource: [B]rick"));
    assert!(help.contains("[TPA]ccept / [TPD]ecline"));
    assert!(help.ends_with("[Q]uit\n"));
}
