//! Game-server rules: request and response values, the rock-paper-scissors
//! decision, the basic-attack check of a field unit and the mulligan monitor's
//! step, each with its contract.

pub mod first_turn_decision_wait_queue_response;
pub mod decimal;
pub mod game_deck_card_list_request;
pub mod rock_paper_scissors;
pub mod unit_basic_attack;
pub mod mulligan_monitor;
