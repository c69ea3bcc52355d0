pub mod assets;
pub mod bg_data;
pub mod bg_overrides;
pub mod bg_prefab;
pub mod goal_animation;
pub mod icon_db;
pub mod level_db;
pub mod runtime_assets;
pub mod sprite_db;
pub mod prefab_sprites;
pub mod sprite_prefab;
pub mod unity_anim;
