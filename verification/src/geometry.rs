pub mod dimension;
