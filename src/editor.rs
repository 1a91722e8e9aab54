//! State of the two code-editor front ends: the language used for syntax
//! highlighting and the text being edited.
use vstd::prelude::*;

verus! {

/// The starting text of [`CodeEditor`].
pub const SIMPLE_SAMPLE: &'static str = "// A very simple example\nfn main() {\n\tprintln!(\"Hello world!\");\n}\n";

/// The starting text of [`CodeEditorExample`]: the front end's own update loop.
pub const CODE_SAMPLE: &'static str = r#"impl eframe::App for CodeEditorExample {
        fn update(&mut self, ctx: &egui::Context, _frame: &mut eframe::Frame) {
                egui::CentralPanel::default().show(ctx, |ui| {
                        let Self { language, code } = self;
                        ui.horizontal(|ui| {
                                ui.set_height(0.0);
                                ui.label("An example of syntax highlighting in a TextEdit.");
                                // ui.add(crate::egui_github_link_file!());
                        });
                        ui.horizontal(|ui| {
                                ui.label("Language:");
                                ui.text_edit_singleline(language);
                        });
                        ui.horizontal_wrapped(|ui| {
                                ui.spacing_mut().item_spacing.x = 0.0;
                                ui.label("Syntax highlighting powered by ");
                                ui.hyperlink_to("syntect", "https://github.com/trishume/syntect");
                                ui.label(".");
                        });
                        let mut code_theme =
                                egui_extras::syntax_highlighting::CodeTheme::from_memory(ui.ctx(), ui.style());
                        ui.collapsing("Theme", |ui| {
                                ui.group(|ui| {
                                        code_theme.ui(ui);
                                        code_theme.clone().store_in_memory(ui.ctx());
                                });
                        });
                        let mut layouter = |ui: &egui::Ui, string: &dyn egui::TextBuffer, wrap_width: f32| {
                                let mut layout_job = egui_extras::syntax_highlighting::highlight(
                                        ui.ctx(),
                                        ui.style(),
                                        &code_theme,
                                        string.as_str(),
                                        language,
                                );
                                layout_job.wrap.max_width = wrap_width;
                                ui.fonts(|f| f.layout_job(layout_job))
                        };
                        egui::ScrollArea::vertical().show(ui, |ui| {
                                ui.add(egui::TextEdit::multiline(code)
                                        .font(egui::TextStyle::Monospace) // for cursor height
                                        .code_editor()
                                        .desired_rows(10)
                                        .lock_focus(true)
                                        .desired_width(f32::INFINITY)
                                        .layouter(&mut layouter));
                        });
                });
        }
}"#;

/// A minimal code editor.
pub struct CodeEditor {
    pub language: String,
    pub code: String,
}

impl Default for CodeEditor {
    /// Rust highlighting and a hello-world program.
    fn default() -> (r: Self)
        ensures
            r.language@ == "rs"@,
            r.code@ == SIMPLE_SAMPLE@,
    {
        CodeEditor { language: String::from_str("rs"), code: String::from_str(SIMPLE_SAMPLE) }
    }
}

/// A code editor with a larger starting sample.
#[derive(Debug, Clone, PartialEq, Eq)]
pub struct CodeEditorExample {
    pub language: String,
    pub code: String,
}

impl Default for CodeEditorExample {
    /// Rust highlighting and [`CODE_SAMPLE`].
    fn default() -> (r: Self)
        ensures
            r.language@ == "rs"@,
            r.code@ == CODE_SAMPLE@,
    {
        CodeEditorExample { language: String::from_str("rs"), code: String::from_str(CODE_SAMPLE) }
    }
}

} // verus!
