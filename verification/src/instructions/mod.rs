pub mod create_note;
pub mod delete_note;
pub mod tip_note;
pub mod update_note;
pub mod upvote_note;
