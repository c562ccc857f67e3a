use tamagotchi::{
    AdultForm, Behavior, CareLevel, Discipline, Event, Form, Gender, Health, Hunger, Light, Mood,
    Status, TeenForm, Tamagotchi,
};

fn egg() -> Tamagotchi {
    Tamagotchi::new(String::from("Kuchi"), Gender::Female)
}

fn child() -> Tamagotchi {
    egg().advance(5, Behavior::Good).advance(65, Behavior::Good)
}

#[test]
fn a_new_pet_is_an_uncared_for_egg() {
    let pet = Tamagotchi::new(String::from("Mame"), Gender::Male);
    assert_eq!(pet.name(), "Mame");
    assert_eq!(pet.gender(), Gender::Male);
    assert_eq!(pet.age(), 0);
    assert_eq!(pet.weight(), 0);
    assert_eq!(pet.form(), Form::Tamago);
    assert_eq!(pet.status(), Status::default());
    assert_eq!(pet.care_level(), CareLevel::BelowAverage);
}

#[test]
fn feed_adds_half_a_unit_and_one_level_of_hunger() {
    let pet = egg();
    let fed = pet.feed();
    assert_eq!(fed.weight(), 5);
    assert_eq!(fed.status(), Status { hunger: Hunger::Famished, ..pet.status() });
    assert_eq!(fed.name(), pet.name());
    assert_eq!(fed.gender(), pet.gender());
    assert_eq!(fed.age(), pet.age());
    assert_eq!(fed.form(), pet.form());
    assert_eq!(pet.weight(), 0);
}

#[test]
fn feed_at_the_top_of_hunger_still_adds_weight() {
    let full = egg().feed().feed().feed().feed();
    assert_eq!(full.status().hunger, Hunger::Full);
    assert_eq!(full.weight(), 20);
    let again = full.feed();
    assert_eq!(again.status().hunger, Hunger::Full);
    assert_eq!(again.weight(), 25);
}

#[test]
fn play_takes_a_fifth_of_a_unit_and_adds_one_level_of_mood() {
    let pet = egg().feed();
    let played = pet.play();
    assert_eq!(played.weight(), 3);
    assert_eq!(played.status(), Status { mood: Mood::Pessemistic, ..pet.status() });
    assert_eq!(played.name(), pet.name());
    assert_eq!(played.gender(), pet.gender());
    assert_eq!(played.age(), pet.age());
    assert_eq!(played.form(), pet.form());
}

#[test]
fn play_can_take_the_weight_below_nothing() {
    assert_eq!(egg().play().weight(), -2);
}

#[test]
fn the_other_actions_change_the_status_alone() {
    let pet = egg().feed().with_status(Status { sick: true, soiled: true, ..Status::default() });
    let expected = [
        (pet.light(), pet.status().light()),
        (pet.give_medicine(), pet.status().give_medicine()),
        (pet.duck(), pet.status().duck()),
        (pet.attention(), pet.status().attention()),
        (pet.discipline(Behavior::Bad), pet.status().discipline(Behavior::Bad)),
        (pet.discipline(Behavior::Good), pet.status().discipline(Behavior::Good)),
    ];
    for (after, status) in expected {
        assert_eq!(after, pet.with_status(status));
        assert_eq!(after.weight(), 5);
        assert_eq!(after.form(), Form::Tamago);
    }
    assert_eq!(pet.light().status().light, Light::Off);
    assert!(!pet.give_medicine().status().sick);
    assert_eq!(pet.give_medicine().status().health, Health::Weak);
    assert!(!pet.duck().status().soiled);
    assert_eq!(pet.attention().status().mood, Mood::Pessemistic);
    assert_eq!(pet.discipline(Behavior::Bad).status().discipline, Discipline::Goody2Shoes);
}

#[test]
fn child_past_its_time_with_poor_care_becomes_the_bad_care_teen() {
    let pet = child();
    assert_eq!(pet.form(), Form::Tonmarutchi);
    assert!(!pet.care_level().is_good());
    let teen = pet.advance(4321, Behavior::Good);
    assert_eq!(teen.form(), Form::Teen(TeenForm::Hashitamatchi));
}

#[test]
fn child_past_its_time_with_good_care_becomes_the_good_care_teen() {
    let cared = child().with_status(Status {
        hunger: Hunger::Full,
        mood: Mood::Cheerful,
        ..Status::default()
    });
    assert_eq!(cared.care_level(), CareLevel::Good);
    let teen = cared.advance(4320, Behavior::Bad);
    assert_eq!(teen.form(), Form::Teen(TeenForm::Tongaritchi));
    let adult = teen.advance(4320, Behavior::Bad);
    assert_eq!(adult.form(), Form::Adult(AdultForm::Nyatchi));
}

#[test]
fn advance_before_the_time_is_up_keeps_the_form() {
    let pet = egg();
    assert_eq!(pet.advance(4, Behavior::Good), pet);
    assert_eq!(child().advance(4319, Behavior::Bad), child());
}

#[test]
fn a_sleeping_pet_sleeps_while_time_passes() {
    let asleep = Status { asleep: true, light: Light::Off, ..Status::default() };
    let pet = egg().with_status(asleep);
    let later = pet.advance(1, Behavior::Good);
    assert_eq!(later.status(), asleep.sleep());
    assert_eq!(later.status().mood, Mood::Pessemistic);
    assert_eq!(later.status().health, Health::Weak);
    assert_eq!(later.form(), Form::Tamago);
    assert_eq!(later.weight(), 0);
    assert_eq!(later.age(), 0);
}

#[test]
fn evolution_goes_by_the_care_before_the_sleep() {
    let almost = Status {
        hunger: Hunger::Full,
        mood: Mood::Optimistic,
        health: Health::Neglected,
        asleep: true,
        ..Status::default()
    };
    let pet = child().with_status(almost);
    assert_eq!(pet.care_level(), CareLevel::AboveAverage);
    let teen = pet.advance(4320, Behavior::Good);
    assert_eq!(teen.form(), Form::Teen(TeenForm::Hashitamatchi));
    assert_eq!(teen.care_level(), CareLevel::Good);
}

#[test]
fn age_is_set_from_outside_and_no_action_changes_it() {
    let pet = egg().with_age(3);
    assert_eq!(pet.age(), 3);
    assert_eq!(pet.feed().play().advance(5, Behavior::Good).age(), 3);
    assert_eq!(pet.with_age(0), egg());
}

#[test]
fn apply_does_what_the_action_does() {
    let pet = egg().with_status(Status { sick: true, soiled: true, ..Status::default() });
    assert_eq!(pet.apply(Event::Feed), pet.feed());
    assert_eq!(pet.apply(Event::Light), pet.light());
    assert_eq!(pet.apply(Event::Play), pet.play());
    assert_eq!(pet.apply(Event::Medicine), pet.give_medicine());
    assert_eq!(pet.apply(Event::Duck), pet.duck());
    assert_eq!(pet.apply(Event::Attention), pet.attention());
    assert_eq!(pet.apply(Event::Discipline(Behavior::Bad)), pet.discipline(Behavior::Bad));
    assert_eq!(
        pet.apply(Event::Advance(5, Behavior::Good)),
        pet.advance(5, Behavior::Good)
    );
}

#[test]
fn no_run_of_events_takes_a_pet_back() {
    let events = [
        Event::Feed,
        Event::Advance(5, Behavior::Good),
        Event::Play,
        Event::Advance(1, Behavior::Bad),
        Event::Advance(65, Behavior::Bad),
        Event::Light,
        Event::Medicine,
        Event::Advance(0, Behavior::Good),
        Event::Discipline(Behavior::Bad),
        Event::Advance(4320, Behavior::Good),
        Event::Duck,
        Event::Attention,
        Event::Advance(4320, Behavior::Good),
        Event::Advance(5760, Behavior::Good),
        Event::Advance(0, Behavior::Bad),
    ];
    let mut pet = egg();
    let mut stages: Vec<u8> = vec![pet.form().stage_number()];
    for event in events {
        let next = pet.apply(event);
        assert!(next.form().stage_number() >= pet.form().stage_number());
        assert_eq!(next.name(), "Kuchi");
        assert_eq!(next.gender(), Gender::Female);
        stages.push(next.form().stage_number());
        pet = next;
    }
    assert_eq!(stages, vec![0, 0, 1, 1, 1, 2, 2, 2, 2, 2, 3, 3, 3, 4, 4, 4]);
    assert_eq!(pet.form(), Form::Adult(AdultForm::Hashizoutchi));
}

#[test]
fn clone_is_the_same_pet() {
    let pet = child().feed();
    assert_eq!(pet.clone(), pet);
}
