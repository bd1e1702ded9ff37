use adventure::direction::{Command, Direction, GO_EAST, GO_NORTH, GO_SOUTH, GO_WEST};
use adventure::room::{Exit, Room};

fn room(exits: Vec<Exit>) -> Room {
    Room { description: "somewhere".to_string(), exits }
}

fn crossing() -> Room {
    room(vec![
        Exit { direction: Direction::South, target: 2 },
        Exit { direction: Direction::East, target: 1 },
    ])
}

const ALL: [Direction; 4] =
    [Direction::North, Direction::East, Direction::South, Direction::West];

#[test]
fn exit_can_go_only_in_its_own_direction() {
    let exit = Exit { direction: Direction::West, target: 3 };
    assert!(exit.can_go(&Direction::West));
    assert!(!exit.can_go(&Direction::North));
    assert!(!exit.can_go(&Direction::East));
    assert!(!exit.can_go(&Direction::South));
}

#[test]
fn can_go_holds_exactly_for_listed_directions() {
    let here = crossing();
    for direction in ALL {
        let listed = here.exits.iter().any(|exit| exit.direction == direction);
        assert_eq!(here.can_go(direction), listed);
    }
    assert!(here.can_go(Direction::South));
    assert!(here.can_go(Direction::East));
    assert!(!here.can_go(Direction::North));
    assert!(!here.can_go(Direction::West));
}

#[test]
fn can_go_is_false_everywhere_in_a_room_without_exits() {
    let here = room(vec![]);
    for direction in ALL {
        assert!(!here.can_go(direction));
    }
}

#[test]
fn exit_to_gives_the_target_of_the_matching_exit() {
    let here = crossing();
    assert_eq!(here.exit_to(Direction::South), Some(2));
    assert_eq!(here.exit_to(Direction::East), Some(1));
}

#[test]
fn exit_to_gives_none_without_a_matching_exit() {
    let here = crossing();
    assert_eq!(here.exit_to(Direction::North), None);
    assert_eq!(here.exit_to(Direction::West), None);
    assert_eq!(room(vec![]).exit_to(Direction::South), None);
}

#[test]
fn exit_to_takes_the_first_of_two_exits_in_one_direction() {
    let here = room(vec![
        Exit { direction: Direction::East, target: 9 },
        Exit { direction: Direction::South, target: 4 },
        Exit { direction: Direction::South, target: 7 },
    ]);
    assert_eq!(here.exit_to(Direction::South), Some(4));
}

#[test]
fn exit_to_is_some_exactly_where_can_go_holds() {
    let here = crossing();
    for direction in ALL {
        assert_eq!(here.exit_to(direction).is_some(), here.can_go(direction));
    }
}

#[test]
fn is_escape_holds_exactly_for_a_room_without_exits() {
    assert!(room(vec![]).is_escape());
    assert!(!crossing().is_escape());
    assert!(!room(vec![Exit { direction: Direction::North, target: 0 }]).is_escape());
}

#[test]
fn parse_reads_the_four_letters() {
    assert_eq!(Direction::parse("n"), Some(Direction::North));
    assert_eq!(Direction::parse("e"), Some(Direction::East));
    assert_eq!(Direction::parse("s"), Some(Direction::South));
    assert_eq!(Direction::parse("w"), Some(Direction::West));
}

#[test]
fn parse_refuses_upper_case() {
    assert_eq!(Direction::parse("N"), None);
    assert_eq!(Direction::parse("E"), None);
    assert_eq!(Direction::parse("S"), None);
    assert_eq!(Direction::parse("W"), None);
}

#[test]
fn parse_refuses_everything_but_one_letter() {
    assert_eq!(Direction::parse(""), None);
    assert_eq!(Direction::parse("x"), None);
    assert_eq!(Direction::parse("ne"), None);
    assert_eq!(Direction::parse("north"), None);
    assert_eq!(Direction::parse("n "), None);
    assert_eq!(Direction::parse(" n"), None);
    assert_eq!(Direction::parse("n\n"), None);
    assert_eq!(Direction::parse("ñ"), None);
}

#[test]
fn label_names_the_direction_and_its_letter() {
    assert_eq!(Direction::North.label(), "* Go (n)orth");
    assert_eq!(Direction::East.label(), "* Go (e)ast");
    assert_eq!(Direction::South.label(), "* Go (s)outh");
    assert_eq!(Direction::West.label(), "* Go (w)est");
    assert_eq!(GO_NORTH, "* Go (n)orth");
    assert_eq!(GO_EAST, "* Go (e)ast");
    assert_eq!(GO_SOUTH, "* Go (s)outh");
    assert_eq!(GO_WEST, "* Go (w)est");
}

#[test]
fn command_needs_a_letter_and_an_exit() {
    let here = crossing();
    assert_eq!(here.command("s"), Some(Command::Go(Direction::South)));
    assert_eq!(here.command("e"), Some(Command::Go(Direction::East)));
    assert_eq!(here.command("n"), None);
    assert_eq!(here.command("w"), None);
    assert_eq!(here.command("x"), None);
    assert_eq!(here.command("S"), None);
    assert_eq!(here.command(""), None);
}

#[test]
fn perform_follows_the_exit() {
    let here = crossing();
    assert_eq!(here.perform(Command::Go(Direction::South)), Some(2));
    assert_eq!(here.perform(Command::Go(Direction::East)), Some(1));
    assert_eq!(here.perform(Command::Go(Direction::North)), None);
}

#[test]
fn respond_moves_or_asks_again() {
    let here = crossing();
    assert_eq!(here.respond("s"), Some(2));
    assert_eq!(here.respond("e"), Some(1));
    assert_eq!(here.respond("n"), None);
    assert_eq!(here.respond("x"), None);
    assert_eq!(here.respond(" s"), None);
}

#[test]
fn an_accepted_command_always_leads_somewhere() {
    let here = crossing();
    for token in ["n", "e", "s", "w", "x", "N", ""] {
        if let Some(command) = here.command(token) {
            assert!(here.perform(command).is_some());
        }
    }
}
