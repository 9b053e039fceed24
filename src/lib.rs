/// Splitting a content file into its metadata block and its body.
pub mod front_matter;
/// The page record of one content file, and the names derived for it.
pub mod page;
/// Run settings, built-in templates and the choice of template per page.
pub mod template;
/// What the walk of a content directory does with each of its entries.
pub mod walk;
