//! The logical cursor shown in place of the system cursor.

pub mod cursor;
