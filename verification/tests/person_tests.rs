use cast_server::tmdb::{credit_fields, known_for, nonempty_text, rating_order, CreditRecord};

fn record(id: u64) -> CreditRecord {
    CreditRecord {
        id,
        title: None,
        name: None,
        character: None,
        media_type: None,
        release_date: None,
        first_air_date: None,
        poster_path: None,
    }
}

#[test]
fn role_of_a_movie() {
    let mut c = record(7);
    c.title = Some("Heat".to_string());
    c.name = Some("ignored".to_string());
    c.character = Some("Neil".to_string());
    c.media_type = Some("movie".to_string());
    c.release_date = Some("1995-12-15".to_string());
    c.first_air_date = Some("2001-01-01".to_string());
    c.poster_path = Some("/heat.jpg".to_string());
    let f = credit_fields(&c);
    assert_eq!(f.id, 7);
    assert_eq!(f.title, "Heat");
    assert_eq!(f.character, Some("Neil".to_string()));
    assert_eq!(f.media_type, "movie");
    assert_eq!(f.poster_url, Some("https://image.tmdb.org/t/p/w185/heat.jpg".to_string()));
    assert_eq!(f.year, Some("1995".to_string()));
}

#[test]
fn role_of_a_show_with_defaults() {
    let mut c = record(9);
    c.name = Some("The Show".to_string());
    c.first_air_date = Some("2010-04-01".to_string());
    let f = credit_fields(&c);
    assert_eq!(f.title, "The Show");
    assert_eq!(f.media_type, "unknown");
    assert_eq!(f.poster_url, None);
    assert_eq!(f.year, Some("2010".to_string()));
    let g = credit_fields(&record(1));
    assert_eq!(g.title, "");
    assert_eq!(g.year, None);
}

#[test]
fn release_date_decides_the_year_even_when_short() {
    let mut c = record(3);
    c.release_date = Some("19".to_string());
    c.first_air_date = Some("2010-04-01".to_string());
    assert_eq!(credit_fields(&c).year, None);
}

#[test]
fn roles_best_rated_first() {
    assert_eq!(rating_order(&vec![Some(1), None, Some(3), Some(1), None]), vec![2, 0, 3, 1, 4]);
    assert_eq!(rating_order(&vec![Some(-5), Some(-2)]), vec![1, 0]);
    assert_eq!(rating_order(&vec![]), Vec::<usize>::new());
}

#[test]
fn known_for_keeps_positions() {
    let mut a = record(1);
    a.title = Some("A".to_string());
    let mut b = record(2);
    b.title = Some("B".to_string());
    let roles = known_for(&vec![a, b], &vec![None, Some(10)]);
    assert_eq!(roles.len(), 2);
    assert_eq!(roles[0].0, 1);
    assert_eq!(roles[0].1.title, "B");
    assert_eq!(roles[1].0, 0);
    assert_eq!(roles[1].1.id, 1);
}

#[test]
fn empty_biography_counts_as_none() {
    assert_eq!(nonempty_text(&Some(String::new())), None);
    assert_eq!(nonempty_text(&Some("Born in 1950.".to_string())), Some("Born in 1950.".to_string()));
    assert_eq!(nonempty_text(&None), None);
}
