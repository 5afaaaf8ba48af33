use games_service::enums::subscription_enum::SubscriptionType;
use games_service::models::games::Game;
use games_service::routes::replies::{
    lookup_reply, lookup_result, saved_game_reply, value_reply, Failure, RowNotFound,
};

fn game() -> Game {
    Game {
        reference: Some("game_1".to_string()),
        name: "Halo".to_string(),
        description: "Shooter".to_string(),
        game_category: vec![],
        subscription_type: vec![SubscriptionType::Basic],
        inventory: None,
    }
}

#[test]
fn failure_codes() {
    assert_eq!(Failure::NotFound.code(), 404);
    assert_eq!(Failure::InternalServerError.code(), 500);
}

#[test]
fn saved_game_replies() {
    assert_eq!(saved_game_reply::<()>(Ok(Some(game()))).unwrap().name, "Halo");
    assert_eq!(saved_game_reply::<()>(Ok(None)).unwrap_err(), Failure::InternalServerError);
    assert_eq!(saved_game_reply::<&str>(Err("db down")).unwrap_err(), Failure::InternalServerError);
}

#[test]
fn lookup_replies() {
    assert_eq!(lookup_reply::<()>(Ok(Some(game()))).unwrap().name, "Halo");
    assert_eq!(lookup_reply::<()>(Ok(None)).unwrap_err(), Failure::NotFound);
    assert_eq!(lookup_reply::<()>(Err(())).unwrap_err(), Failure::InternalServerError);
}

#[test]
fn missing_game_is_server_error() {
    let r = lookup_result(None);
    assert_eq!(r.clone().unwrap_err(), RowNotFound);
    assert_eq!(lookup_reply(r).unwrap_err().code(), 500);
    assert_eq!(lookup_reply(lookup_result(Some(game()))).unwrap().name, "Halo");
}

#[test]
fn value_replies() {
    assert_eq!(value_reply::<u8, ()>(Ok(3)).unwrap(), 3);
    assert_eq!(value_reply::<u8, ()>(Err(())).unwrap_err(), Failure::InternalServerError);
}
