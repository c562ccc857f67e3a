use tamagotchi::{BetterOrWorse, Discipline, Health, Hearts, Hunger, Mood};

const HUNGER: [Hunger; 5] =
    [Hunger::Starving, Hunger::Famished, Hunger::Snackish, Hunger::Peckish, Hunger::Full];
const MOOD: [Mood; 5] =
    [Mood::Miserable, Mood::Pessemistic, Mood::Indifferent, Mood::Optimistic, Mood::Cheerful];
const HEALTH: [Health; 5] =
    [Health::Neglected, Health::Weak, Health::Normal, Health::Strong, Health::Eggcellent];
const DISCIPLINE: [Discipline; 5] = [
    Discipline::Bratty,
    Discipline::Spoiled,
    Discipline::Average,
    Discipline::Goody2Shoes,
    Discipline::ModelAlien,
];

#[test]
fn hunger_hearts_count_the_level() {
    let got: Vec<u32> = HUNGER.iter().map(|h| h.hearts()).collect();
    assert_eq!(got, vec![0, 1, 2, 3, 4]);
}

#[test]
fn mood_hearts_count_the_level() {
    let got: Vec<u32> = MOOD.iter().map(|m| m.hearts()).collect();
    assert_eq!(got, vec![0, 1, 2, 3, 4]);
}

#[test]
fn health_hearts_count_the_level() {
    let got: Vec<u32> = HEALTH.iter().map(|h| h.hearts()).collect();
    assert_eq!(got, vec![0, 1, 2, 3, 4]);
}

#[test]
fn discipline_meter_counts_the_level() {
    let got: Vec<u32> = DISCIPLINE.iter().map(|d| d.meter()).collect();
    assert_eq!(got, vec![0, 1, 2, 3, 4]);
}

#[test]
fn hunger_steps_one_level_and_saturates() {
    let up: Vec<Hunger> = HUNGER.iter().map(|h| h.better()).collect();
    assert_eq!(
        up,
        vec![Hunger::Famished, Hunger::Snackish, Hunger::Peckish, Hunger::Full, Hunger::Full]
    );
    let down: Vec<Hunger> = HUNGER.iter().map(|h| h.worse()).collect();
    assert_eq!(
        down,
        vec![Hunger::Starving, Hunger::Starving, Hunger::Famished, Hunger::Snackish, Hunger::Peckish]
    );
}

#[test]
fn mood_steps_one_level_and_saturates() {
    let up: Vec<Mood> = MOOD.iter().map(|m| m.better()).collect();
    assert_eq!(
        up,
        vec![Mood::Pessemistic, Mood::Indifferent, Mood::Optimistic, Mood::Cheerful, Mood::Cheerful]
    );
    let down: Vec<Mood> = MOOD.iter().map(|m| m.worse()).collect();
    assert_eq!(
        down,
        vec![Mood::Miserable, Mood::Miserable, Mood::Pessemistic, Mood::Indifferent, Mood::Optimistic]
    );
}

#[test]
fn health_steps_one_level_and_saturates() {
    let up: Vec<Health> = HEALTH.iter().map(|h| h.better()).collect();
    assert_eq!(
        up,
        vec![Health::Weak, Health::Normal, Health::Strong, Health::Eggcellent, Health::Eggcellent]
    );
    let down: Vec<Health> = HEALTH.iter().map(|h| h.worse()).collect();
    assert_eq!(
        down,
        vec![Health::Neglected, Health::Neglected, Health::Weak, Health::Normal, Health::Strong]
    );
}

#[test]
fn discipline_steps_one_level_and_saturates() {
    let up: Vec<Discipline> = DISCIPLINE.iter().map(|d| d.better()).collect();
    assert_eq!(
        up,
        vec![
            Discipline::Spoiled,
            Discipline::Average,
            Discipline::Goody2Shoes,
            Discipline::ModelAlien,
            Discipline::ModelAlien
        ]
    );
    let down: Vec<Discipline> = DISCIPLINE.iter().map(|d| d.worse()).collect();
    assert_eq!(
        down,
        vec![
            Discipline::Bratty,
            Discipline::Bratty,
            Discipline::Spoiled,
            Discipline::Average,
            Discipline::Goody2Shoes
        ]
    );
}

#[test]
fn worse_undoes_better_below_the_top() {
    for h in &HUNGER[..4] {
        assert_eq!(h.better().worse(), *h);
    }
    for m in &MOOD[..4] {
        assert_eq!(m.better().worse(), *m);
    }
    for h in &HEALTH[..4] {
        assert_eq!(h.better().worse(), *h);
    }
    for d in &DISCIPLINE[..4] {
        assert_eq!(d.better().worse(), *d);
    }
}

#[test]
fn worse_after_better_at_the_top_is_one_below() {
    assert_eq!(Hunger::Full.better().worse(), Hunger::Peckish);
    assert_eq!(Mood::Cheerful.better().worse(), Mood::Optimistic);
    assert_eq!(Health::Eggcellent.better().worse(), Health::Strong);
    assert_eq!(Discipline::ModelAlien.better().worse(), Discipline::Goody2Shoes);
}

#[test]
fn better_undoes_worse_above_the_bottom() {
    for h in &HUNGER[1..] {
        assert_eq!(h.worse().better(), *h);
    }
    for m in &MOOD[1..] {
        assert_eq!(m.worse().better(), *m);
    }
    for h in &HEALTH[1..] {
        assert_eq!(h.worse().better(), *h);
    }
    for d in &DISCIPLINE[1..] {
        assert_eq!(d.worse().better(), *d);
    }
}

#[test]
fn steps_are_idempotent_at_the_ends() {
    assert_eq!(Hunger::Full.better().better(), Hunger::Full.better());
    assert_eq!(Hunger::Starving.worse().worse(), Hunger::Starving.worse());
    assert_eq!(Mood::Cheerful.better().better(), Mood::Cheerful.better());
    assert_eq!(Mood::Miserable.worse().worse(), Mood::Miserable.worse());
    assert_eq!(Health::Eggcellent.better().better(), Health::Eggcellent.better());
    assert_eq!(Health::Neglected.worse().worse(), Health::Neglected.worse());
    assert_eq!(Discipline::ModelAlien.better().better(), Discipline::ModelAlien.better());
    assert_eq!(Discipline::Bratty.worse().worse(), Discipline::Bratty.worse());
}

#[test]
fn defaults_are_worst_but_for_discipline() {
    assert_eq!(Hunger::default(), Hunger::Starving);
    assert_eq!(Mood::default(), Mood::Miserable);
    assert_eq!(Health::default(), Health::Neglected);
    assert_eq!(Discipline::default(), Discipline::ModelAlien);
}
