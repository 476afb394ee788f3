use my_first_ggez::actor_type::ActorType;
use my_first_ggez::catalog::{load_enemy_records, parse_enemy_record, LoadError};

const HEADER: &str = "tag,x,y,w,h,facing,vx,vy,ang_vel,life,max_collision_timeout\n";

#[test]
fn loads_one_enemy() {
    let text = format!("{}Enemy,10.5,200,32,32,0,1,-1,0.01,5,0.5\n", HEADER);
    let recs = load_enemy_records(&text).unwrap();
    assert_eq!(recs.len(), 1);
    assert_eq!(recs[0].tag, ActorType::Enemy);
    assert_eq!(recs[0].life, 5);
    assert_eq!(recs[0].kinematics, vec!["10.5", "200", "32", "32", "0", "1", "-1", "0.01"]);
    assert_eq!(recs[0].max_collision_timeout, "0.5");
}

#[test]
fn bad_tag_row_loads_nothing() {
    let text = format!(
        "{}Enemy,0,0,32,32,0,0,0,0,5,0.5\nMonster,0,0,32,32,0,0,0,0,5,0.5\n",
        HEADER
    );
    assert_eq!(load_enemy_records(&text).unwrap_err(), LoadError::UnknownTag);
}

#[test]
fn first_wrong_row_decides_the_error() {
    let text = format!(
        "{}Enemy,0,0,32,32,0,0,0,0,x,0.5\nMonster,0,0,32,32,0,0,0,0,5,0.5\n",
        HEADER
    );
    assert_eq!(load_enemy_records(&text).unwrap_err(), LoadError::BadLife);
}

#[test]
fn short_rows_are_missing_fields() {
    let text = "a,b,c\nEnemy,0,0\n";
    assert_eq!(load_enemy_records(text).unwrap_err(), LoadError::MissingField);
}

#[test]
fn uneven_rows_are_not_csv() {
    let text = format!("{}Enemy,0,0,32,32,0,0,0,0,5,0.5,extra\n", HEADER);
    assert_eq!(load_enemy_records(&text).unwrap_err(), LoadError::Csv);
}

#[test]
fn header_only_is_an_empty_catalog() {
    assert!(load_enemy_records(HEADER).unwrap().is_empty());
}

#[test]
fn life_is_read_as_decimal() {
    let row = |life: &str| -> Vec<String> {
        vec!["Player", "0", "0", "8", "8", "0", "0", "0", "0", life, "0.5"]
            .into_iter()
            .map(String::from)
            .collect()
    };
    assert_eq!(parse_enemy_record(&row("+7")).unwrap().life, 7);
    assert_eq!(parse_enemy_record(&row("-3")).unwrap().life, -3);
    assert_eq!(parse_enemy_record(&row("007")).unwrap().life, 7);
    assert_eq!(parse_enemy_record(&row("-2147483648")).unwrap().life, i32::MIN);
    assert_eq!(parse_enemy_record(&row("2147483648")).unwrap_err(), LoadError::BadLife);
    assert_eq!(parse_enemy_record(&row("-")).unwrap_err(), LoadError::BadLife);
    assert_eq!(parse_enemy_record(&row(" 7")).unwrap_err(), LoadError::BadLife);
    assert_eq!(parse_enemy_record(&row("")).unwrap_err(), LoadError::BadLife);
}

#[test]
fn tag_checked_before_life() {
    let fields: Vec<String> = vec!["Boss", "0", "0", "8", "8", "0", "0", "0", "0", "x", "0.5"]
        .into_iter()
        .map(String::from)
        .collect();
    assert_eq!(parse_enemy_record(&fields).unwrap_err(), LoadError::UnknownTag);
}
