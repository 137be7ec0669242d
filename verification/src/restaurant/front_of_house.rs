pub mod hosting;
mod serving;
