//! The conformance-test entities and the machinery around them.


pub use test::Resource;
pub use test::Resources;
pub use test::Test;
pub use test::Tests;
