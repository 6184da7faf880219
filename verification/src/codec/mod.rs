pub mod ulaw;
