//! Next departures of a transit stop for a fixed-layout smart display.
//!
//! The library turns the real-time departures that the operator of the
//! network publishes into the frames that the display shows, and decides what
//! an HTTP service built on it answers. It reads no clock, opens no file
//! and makes no call over the network: the program around it does, and hands
//! it what it got.
//!
//! - [`cache`]: the list of valid stops and how long it stays valid;
//! - [`requete`]: the parameters of a query string;
//! - [`resolution`]: the configuration that a request resolves to;
//! - [`passages`]: which departures are shown, and the frame of each;
//! - [`reponse`]: the JSON body that carries frames;
//! - [`arrets`]: the searchable list of stops;
//! - [`service`]: routes, statuses and bodies;
//! - [`amont`]: the addresses of the operator's service;
//! - [`fichier_env`]: the text of a `.env` file;
//! - [`texte`]: helpers on characters;
//! - [`suites`]: facts about filtered sequences;
//! - [`modele`]: the records and their views;
//! - [`dehors`]: the calls into other crates, with the contracts that are
//!   taken on trust.

pub mod amont;
pub mod arrets;
pub mod cache;
pub mod dehors;
pub mod fichier_env;
pub mod modele;
pub mod passages;
pub mod reponse;
pub mod requete;
pub mod resolution;
pub mod service;
pub mod suites;
pub mod texte;
