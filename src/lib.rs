//! Three ways of invoking one unit of work in a tight loop: through a trait
//! object, through a callable passed by value, and through a generic
//! parameter resolved at compile time. Each invocation is handed a running
//! tally and hands one back, so what a loop did can be stated and checked.

pub mod dispatch;
pub mod report;
pub mod work;
