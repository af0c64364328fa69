pub mod taskdialog;
