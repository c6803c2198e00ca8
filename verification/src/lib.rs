pub mod app;
pub mod font_list;
pub mod main_view;
pub mod model;
pub mod settings_view;
pub mod toolbar;
