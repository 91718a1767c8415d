pub mod characterjson;
