use std::cell::Cell;
use std::rc::Rc;

use system_ui::{
    parent_from_native, parent_to_native, Box, Button, CallbackTable, CheckBox, ComboBox, Control,
    DateTimePicker, EditableCombobox, Entry, EventKind, Group, Label, Menu, MenuItem, ProgressBar,
    RadioButtons, Separator, Slider, SlotUpdate, Spinbox, Tab, UiError, Window, NO_WIDGET,
};

fn install<D>(event: EventKind, widget: isize, data: D) -> SlotUpdate<D> {
    SlotUpdate::Install { event, widget, data }
}

fn clear(event: EventKind, widget: isize) -> SlotUpdate<()> {
    SlotUpdate::Clear { event, widget }
}

#[test]
fn wrappers_hold_the_handle_and_nothing_else() {
    assert_eq!(Box::from_ptr(1).as_ptr_mut(), 1);
    assert_eq!(Button::from_ptr(2).as_ptr_mut(), 2);
    assert_eq!(CheckBox::from_ptr(3).as_ptr_mut(), 3);
    assert_eq!(ComboBox::from_ptr(4).as_ptr_mut(), 4);
    assert_eq!(DateTimePicker::from_ptr(5).as_ptr_mut(), 5);
    assert_eq!(EditableCombobox::from_ptr(6).as_ptr_mut(), 6);
    assert_eq!(Entry::from_ptr(7).as_ptr_mut(), 7);
    assert_eq!(Group::from_ptr(8).as_ptr_mut(), 8);
    assert_eq!(Label::from_ptr(9).as_ptr_mut(), 9);
    assert_eq!(Menu::from_ptr(10).as_ptr_mut(), 10);
    assert_eq!(MenuItem::from_ptr(11).as_ptr_mut(), 11);
    assert_eq!(ProgressBar::from_ptr(12).as_ptr_mut(), 12);
    assert_eq!(RadioButtons::from_ptr(13).as_ptr_mut(), 13);
    assert_eq!(Separator::from_ptr(14).as_ptr_mut(), 14);
    assert_eq!(Slider::from_ptr(15).as_ptr_mut(), 15);
    assert_eq!(Spinbox::from_ptr(16).as_ptr_mut(), 16);
    assert_eq!(Tab::from_ptr(17).as_ptr_mut(), 17);
    assert_eq!(Window::from_ptr(18).as_ptr_mut(), 18);
}

#[test]
fn reading_handle_equals_writing_handle() {
    let window = Window::from_ptr(0x7f00_1234);
    assert_eq!(window.as_ptr(), 0x7f00_1234);
    assert_eq!(window.as_ptr(), window.as_ptr_mut());
    let null = Button::from_ptr(NO_WIDGET);
    assert_eq!(null.as_ptr(), 0);
    let negative = Tab::from_ptr(-8);
    assert_eq!(negative.as_ptr_mut(), -8);
}

#[test]
fn two_wrappers_of_one_widget_reach_the_same_closure() {
    let mut table = CallbackTable::new();
    let first = Button::from_ptr(0x30);
    let second = Button::from_ptr(0x30);
    let seen = Rc::new(Cell::new(0isize));
    let seen_in = seen.clone();
    first.on_clicked(&mut table, move |b: Button, d: isize| seen_in.set(b.as_ptr() + d), 0isize).unwrap();
    assert_eq!(table.len(), 1);
    table.dispatch::<Button, isize, ()>(second.as_ptr_mut(), 1);
    assert_eq!(seen.get(), 0x31);
    second.clear_clicked(&mut table).unwrap();
    assert_eq!(table.len(), 0);
}

#[test]
fn null_parent_means_detached() {
    assert!(parent_from_native::<Window>(NO_WIDGET).is_none());
    assert!(parent_from_native::<Window>(0).is_none());
    let parent = parent_from_native::<Group>(0x50).expect("a handle that is not null names a parent");
    assert_eq!(parent.as_ptr_mut(), 0x50);
    let parent = parent_from_native::<Group>(-1).expect("a handle that is not null names a parent");
    assert_eq!(parent.as_ptr_mut(), -1);
}

#[test]
fn detaching_hands_the_null_handle_over() {
    assert_eq!(parent_to_native::<Window>(None), NO_WIDGET);
    let parent = Box::from_ptr(0x60);
    assert_eq!(parent_to_native(Some(&parent)), 0x60);
}

#[test]
fn button_clicked() {
    let mut table = CallbackTable::new();
    let w = Button::from_ptr(0x11);
    let r = w.on_clicked(&mut table, |_w: Button, _d: u8| (), 1u8);
    assert_eq!(r.unwrap(), install(EventKind::ButtonClicked, 0x11, 1u8));
    assert!(table.contains(0x11));
    assert_eq!(w.clear_clicked(&mut table).unwrap(), clear(EventKind::ButtonClicked, 0x11));
    assert!(!table.contains(0x11));
}

#[test]
fn check_box_toggled() {
    let mut table = CallbackTable::new();
    let w = CheckBox::from_ptr(0x12);
    let r = w.on_toggled(&mut table, |_w: CheckBox, _d: u8| (), 2u8);
    assert_eq!(r.unwrap(), install(EventKind::CheckBoxToggled, 0x12, 2u8));
    assert!(table.contains(0x12));
    assert_eq!(w.clear_toggled(&mut table).unwrap(), clear(EventKind::CheckBoxToggled, 0x12));
    assert!(!table.contains(0x12));
}

#[test]
fn combo_box_selected() {
    let mut table = CallbackTable::new();
    let w = ComboBox::from_ptr(0x13);
    let r = w.on_selected(&mut table, |_w: ComboBox, _d: u8| (), 3u8);
    assert_eq!(r.unwrap(), install(EventKind::ComboBoxSelected, 0x13, 3u8));
    assert!(table.contains(0x13));
    assert_eq!(w.clear_selected(&mut table).unwrap(), clear(EventKind::ComboBoxSelected, 0x13));
    assert!(!table.contains(0x13));
}

#[test]
fn date_time_picker_changed() {
    let mut table = CallbackTable::new();
    let w = DateTimePicker::from_ptr(0x14);
    let r = w.on_changed(&mut table, |_w: DateTimePicker, _d: u8| (), 4u8);
    assert_eq!(r.unwrap(), install(EventKind::DateTimePickerChanged, 0x14, 4u8));
    assert!(table.contains(0x14));
    assert_eq!(w.clear_changed(&mut table).unwrap(), clear(EventKind::DateTimePickerChanged, 0x14));
    assert!(!table.contains(0x14));
}

#[test]
fn editable_combo_box_changed() {
    let mut table = CallbackTable::new();
    let w = EditableCombobox::from_ptr(0x15);
    let r = w.on_changed(&mut table, |_w: EditableCombobox, _d: u8| (), 5u8);
    assert_eq!(r.unwrap(), install(EventKind::EditableComboboxChanged, 0x15, 5u8));
    assert!(table.contains(0x15));
    assert_eq!(
        w.clear_changed(&mut table).unwrap(),
        clear(EventKind::EditableComboboxChanged, 0x15)
    );
    assert!(!table.contains(0x15));
}

#[test]
fn entry_changed() {
    let mut table = CallbackTable::new();
    let w = Entry::from_ptr(0x16);
    let r = w.on_changed(&mut table, |_w: Entry, _d: u8| (), 6u8);
    assert_eq!(r.unwrap(), install(EventKind::EntryChanged, 0x16, 6u8));
    assert!(table.contains(0x16));
    assert_eq!(w.clear_changed(&mut table).unwrap(), clear(EventKind::EntryChanged, 0x16));
    assert!(!table.contains(0x16));
}

#[test]
fn menu_item_clicked() {
    let mut table = CallbackTable::new();
    let w = MenuItem::from_ptr(0x17);
    let seen = Rc::new(Cell::new((0isize, 0isize, 0isize)));
    let seen_in = seen.clone();
    let r = w.on_clicked(
        &mut table,
        move |item: MenuItem, window: Window, d: isize| {
            seen_in.set((item.as_ptr(), window.as_ptr(), d))
        },
        7isize,
    );
    assert_eq!(r.unwrap(), install(EventKind::MenuItemClicked, 0x17, 7isize));
    table.dispatch_with::<MenuItem, Window, isize, ()>(0x17, 2, 1);
    assert_eq!(seen.get(), (0x17, 2, 1));
    assert_eq!(w.clear_clicked(&mut table).unwrap(), clear(EventKind::MenuItemClicked, 0x17));
    assert!(!table.contains(0x17));
}

#[test]
fn radio_buttons_selected() {
    let mut table = CallbackTable::new();
    let w = RadioButtons::from_ptr(0x18);
    let r = w.on_selected(&mut table, |_w: RadioButtons, _d: u8| (), 8u8);
    assert_eq!(r.unwrap(), install(EventKind::RadioButtonsSelected, 0x18, 8u8));
    assert!(table.contains(0x18));
    assert_eq!(w.clear_selected(&mut table).unwrap(), clear(EventKind::RadioButtonsSelected, 0x18));
    assert!(!table.contains(0x18));
}

#[test]
fn slider_changed_and_released_have_tables_of_their_own() {
    let mut changed = CallbackTable::new();
    let mut released = CallbackTable::new();
    let w = Slider::from_ptr(0x19);
    let r = w.on_changed(&mut changed, |_w: Slider, _d: u8| (), 9u8);
    assert_eq!(r.unwrap(), install(EventKind::SliderChanged, 0x19, 9u8));
    assert!(changed.contains(0x19));
    assert!(!released.contains(0x19));
    let r = w.on_released(&mut released, |_w: Slider, _d: u8| (), 10u8);
    assert_eq!(r.unwrap(), install(EventKind::SliderReleased, 0x19, 10u8));
    assert_eq!(w.clear_changed(&mut changed).unwrap(), clear(EventKind::SliderChanged, 0x19));
    assert!(!changed.contains(0x19));
    assert!(released.contains(0x19));
    assert_eq!(w.clear_released(&mut released).unwrap(), clear(EventKind::SliderReleased, 0x19));
    assert!(!released.contains(0x19));
}

#[test]
fn spinbox_changed() {
    let mut table = CallbackTable::new();
    let w = Spinbox::from_ptr(0x1a);
    let r = w.on_changed(&mut table, |_w: Spinbox, _d: u8| (), 11u8);
    assert_eq!(r.unwrap(), install(EventKind::SpinboxChanged, 0x1a, 11u8));
    assert!(table.contains(0x1a));
    assert_eq!(w.clear_changed(&mut table).unwrap(), clear(EventKind::SpinboxChanged, 0x1a));
    assert!(!table.contains(0x1a));
}

#[test]
fn tab_selected() {
    let mut table = CallbackTable::new();
    let w = Tab::from_ptr(0x1b);
    let r = w.on_selected(&mut table, |_w: Tab, _d: u8| (), 12u8);
    assert_eq!(r.unwrap(), install(EventKind::TabSelected, 0x1b, 12u8));
    assert!(table.contains(0x1b));
    assert_eq!(w.clear_selected(&mut table).unwrap(), clear(EventKind::TabSelected, 0x1b));
    assert!(!table.contains(0x1b));
}

#[test]
fn window_focus_changed() {
    let mut table = CallbackTable::new();
    let w = Window::from_ptr(0x1c);
    let r = w.on_focus_changed(&mut table, |_w: Window, _d: u8| (), 13u8);
    assert_eq!(r.unwrap(), install(EventKind::WindowFocusChanged, 0x1c, 13u8));
    assert!(table.contains(0x1c));
    assert_eq!(
        w.clear_focus_changed(&mut table).unwrap(),
        clear(EventKind::WindowFocusChanged, 0x1c)
    );
    assert!(!table.contains(0x1c));
}

#[test]
fn window_content_size_changed() {
    let mut table = CallbackTable::new();
    let w = Window::from_ptr(0x1d);
    let r = w.on_content_size_changed(&mut table, |_w: Window, _d: u8| (), 14u8);
    assert_eq!(r.unwrap(), install(EventKind::WindowContentSizeChanged, 0x1d, 14u8));
    assert!(table.contains(0x1d));
    assert_eq!(
        w.clear_content_size_changed(&mut table).unwrap(),
        clear(EventKind::WindowContentSizeChanged, 0x1d)
    );
    assert!(!table.contains(0x1d));
}

#[test]
fn window_position_changed() {
    let mut table = CallbackTable::new();
    let w = Window::from_ptr(0x1e);
    let r = w.on_position_changed(&mut table, |_w: Window, _d: u8| (), 15u8);
    assert_eq!(r.unwrap(), install(EventKind::WindowPositionChanged, 0x1e, 15u8));
    assert!(table.contains(0x1e));
    assert_eq!(
        w.clear_position_changed(&mut table).unwrap(),
        clear(EventKind::WindowPositionChanged, 0x1e)
    );
    assert!(!table.contains(0x1e));
}

#[test]
fn window_closing_asks_the_closure() {
    let mut table = CallbackTable::new();
    let w = Window::from_ptr(0x1f);
    let r = w.on_closing(&mut table, |w: Window, limit: isize| w.as_ptr() < limit, 0isize);
    assert_eq!(r.unwrap(), install(EventKind::WindowClosing, 0x1f, 0isize));
    assert_eq!(Window::closing(&mut table, 0x1f, 0x20), 1);
    assert_eq!(Window::closing(&mut table, 0x1f, 0x1f), 0);
    assert_eq!(w.clear_closing(&mut table).unwrap(), clear(EventKind::WindowClosing, 0x1f));
    assert_eq!(Window::closing(&mut table, 0x1f, 0x20), 0);
}

#[test]
fn window_without_closure_stays_open() {
    let mut table: CallbackTable<fn(Window, ()) -> bool> = CallbackTable::new();
    assert_eq!(Window::closing(&mut table, 0x1f, ()), 0);
    table.register(0x1f, |_w, _d| true).unwrap();
    assert_eq!(Window::closing(&mut table, 0x1f, ()), 1);
    table.poison(String::from("poisoned lock: another task failed inside"));
    assert_eq!(Window::closing(&mut table, 0x1f, ()), 0);
}

#[test]
fn poisoned_table_fails_every_widget_alike() {
    let mut table = CallbackTable::new();
    table.poison(String::from("poisoned lock: another task failed inside"));
    let w = Button::from_ptr(1);
    match w.on_clicked(&mut table, |_w: Button, _d: u8| (), 0u8) {
        Err(UiError::Poison(why)) => assert_eq!(why, "poisoned lock: another task failed inside"),
        _ => panic!("a poisoned table takes nothing"),
    }
    match w.clear_clicked(&mut table) {
        Err(UiError::Poison(why)) => assert_eq!(why, "poisoned lock: another task failed inside"),
        _ => panic!("a poisoned table gives nothing up"),
    }
    assert_eq!(table.len(), 0);
}
