//! Material 3 component logic: calendar dates, date selection and input,
//! focus traversal, menus and dialogs, and the decisions behind the
//! interactive widgets. Rendering is left to the widget toolkit.
mod text;
pub mod date;
pub mod date_picker;
pub mod calendar;
pub mod studio;
pub mod focus;
pub mod activity;
pub mod menu;
pub mod dialog;
pub mod anchored;
pub mod variants;
pub mod press;
pub mod badge;
pub mod popup;
pub mod title;
pub mod carousel;

pub use date::{Date, DateView, InvalidDate};
pub use date_picker::{DockedSource, docked_closes, DateSelection, DatePicker, DayCell, DateField, PickerModel, Submission, YearCell, date_input, date_picker};
pub use calendar::{CalendarKey, KeyResponse, key_target, navigate, nearest_enabled, position_of};
pub use studio::{Access, Digest, Message, Page, Studio, StudioView, Workspace, WorkspaceView};
pub use focus::{GroupKey, GroupMemory, cycle, group_target, restore_index};
pub use activity::{Activity, Context, WindowEvent, covered_context, covered_event, interaction, is_covered, window_focus};
pub use menu::{ContextAction, ContextEvent, ContextPress, InitialFocus, MenuKey, MenuRole, SelectOption, TypeAhead, accepts_typed, keyboard_open, menu_step, normalize_label};
pub use dialog::{ActiveLayer, LayerSwitch, Background, BackgroundActions, DialogEvent, DismissRules, LayerFlags, OutsidePress, top_visible};
pub use anchored::Placement;
pub use variants::{AppBarVariant, ButtonVariant, CarouselVariant, ChipVariant, FabColor, FabSize, NavigationLayout, SurfaceVariant};
pub use press::{NamedKey, Press, PressEvent, Toggle, ToggleRules};
pub use badge::badge_label;
pub use popup::{Popup, PopupAction, PopupEvent, captures, closed_captures, closes_on_messages};
pub use title::{fit_graphemes, fit_title};
pub use carousel::{CarouselKey, CarouselResponse, key_response, selected_index, wheel_step};
