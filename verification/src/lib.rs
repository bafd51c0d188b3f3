pub mod appstate;
pub mod language;
pub mod listplan;
pub mod localization;
pub mod localization_terms;
pub mod netadapters;
pub mod netcalc;
pub mod pages;
pub mod perfcalc;
pub mod perflayout;
pub mod proccollect;
pub mod procpage;
pub mod procsort;
pub mod proctext;
pub mod procui;
pub mod resource;
pub mod sort;
pub mod strings;
pub mod taskpage;
pub mod text_key;
pub mod ui_texts;
pub mod userpage;
pub mod winutil;
