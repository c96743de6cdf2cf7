use bestle::result_generator::{filler_colours, get_colours, random_colour, Colours};
use bestle::Parameters;

fn params(red: bool, yellow: bool, grey: bool) -> Parameters {
    Parameters {
        name: String::from("Bestle"),
        width: 5,
        height: 5,
        winning: true,
        yellow,
        red,
        grey,
    }
}

#[test]
fn each_colour_has_its_block() {
    assert_eq!(Colours::Green.block(), "🟩");
    assert_eq!(Colours::Red.block(), "🟥");
    assert_eq!(Colours::Yellow.block(), "🟨");
    assert_eq!(Colours::Grey.block(), "⬛");
}

#[test]
fn each_block_is_one_character() {
    for colour in [Colours::Green, Colours::Red, Colours::Yellow, Colours::Grey] {
        assert_eq!(colour.block().chars().count(), 1);
        assert_ne!(colour.block(), "\n");
    }
}

#[test]
fn palette_without_selection_is_green_alone() {
    assert_eq!(get_colours(&params(false, false, false)), vec![Colours::Green]);
}

#[test]
fn palette_keeps_the_fixed_order() {
    assert_eq!(
        get_colours(&params(true, true, true)),
        vec![Colours::Green, Colours::Red, Colours::Yellow, Colours::Grey]
    );
}

#[test]
fn palette_holds_only_what_is_selected() {
    assert_eq!(get_colours(&params(true, false, false)), vec![Colours::Green, Colours::Red]);
    assert_eq!(get_colours(&params(false, true, false)), vec![Colours::Green, Colours::Yellow]);
    assert_eq!(get_colours(&params(false, false, true)), vec![Colours::Green, Colours::Grey]);
    assert_eq!(
        get_colours(&params(false, true, true)),
        vec![Colours::Green, Colours::Yellow, Colours::Grey]
    );
    assert_eq!(
        get_colours(&params(true, false, true)),
        vec![Colours::Green, Colours::Red, Colours::Grey]
    );
}

#[test]
fn fillers_leave_green_out() {
    let all = vec![Colours::Green, Colours::Red, Colours::Yellow, Colours::Grey];
    assert_eq!(filler_colours(&all), vec![Colours::Red, Colours::Yellow, Colours::Grey]);
    assert_eq!(filler_colours(&vec![Colours::Green]), Vec::<Colours>::new());
    assert_eq!(
        filler_colours(&vec![Colours::Grey, Colours::Green, Colours::Green, Colours::Red]),
        vec![Colours::Grey, Colours::Red]
    );
}

#[test]
fn random_colour_comes_from_the_list() {
    let list = vec![Colours::Yellow, Colours::Grey];
    for _ in 0..200 {
        let colour = random_colour(&list);
        assert!(list.contains(&colour));
    }
}

#[test]
fn random_colour_of_one_is_that_one() {
    for _ in 0..20 {
        assert_eq!(random_colour(&vec![Colours::Red]), Colours::Red);
    }
}

#[test]
fn random_colour_reaches_every_item() {
    let list = vec![Colours::Green, Colours::Red, Colours::Yellow, Colours::Grey];
    let mut seen = [false; 4];
    for _ in 0..2000 {
        let colour = random_colour(&list);
        let at = list.iter().position(|c| *c == colour).unwrap();
        seen[at] = true;
    }
    assert_eq!(seen, [true; 4]);
}
