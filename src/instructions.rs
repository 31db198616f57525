pub mod createtoken;
pub mod generatekeypair;
pub mod message;
pub mod mint;
pub mod sendtokens;
pub mod token;
pub mod transfer;
